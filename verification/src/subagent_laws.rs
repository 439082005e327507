//! What holds of a chat's subagents: which are listed, in which phase and
//! order, and what is said of them.
use vstd::prelude::*;
use crate::clock::{elapsed_text, instant, moment_text, seconds_between, utc_text};
use crate::entry::{
    input_of, MessagePart, MessageStatus, SessionMessageEntry, SubagentStatus, Tool, ToolPart,
};
use crate::json::{lookup, Json};
use crate::subagents::{
    active_under, all_spawns, background, display_order, document, entries_of, first_text,
    input_text, last_user, newest_text, newest_time, observation_key, observed_active,
    observed_after, observed_finish, on_strip, result_line, shown_before, sorted_as, spawns_in,
    spawns_of, summarized, summary_of, title_from, title_of, without_genus, SubagentPhase,
    SubagentState, Summary,
};
use crate::text::{decimal_text, meaningful_line, one_line_of, same_ignoring_ascii_case, trimmed};
use crate::text_laws::trimming_is_settled;

verus! {

/// The member an input holds under a key is the first one written there.
pub proof fn a_member_is_found_under_its_key(members: Seq<(String, Json)>, key: Seq<char>)
    ensures
        lookup(members, key) is None <==> (forall|i: int|
            0 <= i < members.len() ==> (#[trigger] members[i]).0@ != key),
        lookup(members, key) matches Some(value) ==> exists|i: int|
            {
                &&& 0 <= i < members.len()
                &&& (#[trigger] members[i]).0@ == key
                &&& members[i].1 == value
                &&& forall|j: int| 0 <= j < i ==> (#[trigger] members[j]).0@ != key
            },
    decreases members.len(),
{
    if members.len() > 0 {
        if members[0].0@ == key {
            assert(members[0].1 == lookup(members, key)->0);
        } else {
            let rest = members.subrange(1, members.len() as int);
            a_member_is_found_under_its_key(rest, key);
            assert forall|i: int| 0 <= i < rest.len() implies rest[i] == #[trigger] members[i + 1] by {}
            if lookup(rest, key) is Some {
                let i = choose|i: int|
                    {
                        &&& 0 <= i < rest.len()
                        &&& (#[trigger] rest[i]).0@ == key
                        &&& rest[i].1 == lookup(rest, key)->0
                        &&& forall|j: int| 0 <= j < i ==> (#[trigger] rest[j]).0@ != key
                    };
                assert(members[i + 1].0@ == key);
                assert forall|j: int| 0 <= j < i + 1 implies (#[trigger] members[j]).0@ != key by {
                    if j > 0 {
                        assert(rest[j - 1] == members[j]);
                    }
                }
            } else {
                assert forall|i: int| 0 <= i < members.len() implies (
                #[trigger] members[i]).0@ != key by {
                    if i > 0 {
                        assert(rest[i - 1] == members[i]);
                    }
                }
            }
        }
    }
}

/// The input a spawn was called with.
pub open spec fn called_with(part: ToolPart, input: Json) -> bool {
    part.call.tool matches Tool::Unknown { input: Some(given), .. } && given == input || (
    part.call.tool matches Tool::Mcp { input: Some(given), .. } && given == input)
}

/// A spawn is detached exactly where its input says so under
/// `run_in_background`: as a flag, or as a text that reads "true" in any case.
pub proof fn a_flag_detaches_a_spawn(part: ToolPart, members: Vec<(String, Json)>)
    requires
        called_with(part, Json::Object(members)),
    ensures
        lookup(members@, "run_in_background"@) == Some(Json::Bool(true)) ==> background(
            input_of(part.call.tool),
        ),
        lookup(members@, "run_in_background"@) == Some(Json::Bool(false)) ==> !background(
            input_of(part.call.tool),
        ),
        lookup(members@, "run_in_background"@) is None ==> !background(input_of(part.call.tool)),
        lookup(members@, "run_in_background"@) matches Some(Json::Text(text)) ==> (background(
            input_of(part.call.tool),
        ) <==> same_ignoring_ascii_case(trimmed(text@), "true"@)),
{
}

/// A spawn without an input is not detached.
pub proof fn a_spawn_without_input_is_attached(part: ToolPart)
    requires
        !(part.call.tool is Unknown) && !(part.call.tool is Mcp),
    ensures
        !background(input_of(part.call.tool)),
{
}

/// A spawn that waits for its report runs exactly while its turn streams and
/// it is not resolved. A turn that ended without it can never report again: it
/// failed, and no such spawn is owed anything. A result is the final report,
/// and a call that merely returned counts as started while the turn streams.
pub proof fn an_unreported_spawn_dies_with_its_turn(
    state: SubagentState,
    chat: Seq<char>,
    entry: SessionMessageEntry,
    part: ToolPart,
    latest: bool,
)
    requires
        !part.is_error,
        part.subagent_status is None,
        !background(input_of(part.call.tool)),
    ensures
        ({
            let streaming = entry.status == Some(MessageStatus::Streaming);
            let status = summarized(state, chat, entry, part, latest).status;
            &&& status is Running <==> streaming && !part.resolved
            &&& status is Failed <==> !streaming && !part.resolved
            &&& status is Started <==> streaming && part.resolved && part.output is None
            &&& status is Done <==> part.resolved && (part.output is Some || !streaming)
        }),
{
}

/// A failed call failed, whatever else is said of it; else what the harness
/// reported is the phase; and a detached spawn without a report is started, and
/// no more.
pub proof fn a_report_is_the_phase(
    state: SubagentState,
    chat: Seq<char>,
    entry: SessionMessageEntry,
    part: ToolPart,
    latest: bool,
)
    ensures
        ({
            let status = summarized(state, chat, entry, part, latest).status;
            &&& part.is_error ==> status is Failed
            &&& !part.is_error && part.subagent_status == Some(SubagentStatus::Running)
                ==> status is Running
            &&& !part.is_error && part.subagent_status == Some(SubagentStatus::Done) ==> status
                is Done
            &&& !part.is_error && part.subagent_status == Some(SubagentStatus::Failed) ==> status
                is Failed
            &&& !part.is_error && part.subagent_status is None && background(
                input_of(part.call.tool),
            ) ==> status is Started
        }),
{
}

/// An agent is owed a report exactly while it runs or was started.
pub proof fn only_settled_agents_are_owed_nothing(phase: SubagentPhase)
    ensures
        phase.is_active() <==> !(phase is Done || phase is Failed),
{
}

/// What a summary says of its spawn.
pub proof fn a_summary_tells_of_its_spawn(
    state: SubagentState,
    chat: Seq<char>,
    entry: SessionMessageEntry,
    part: ToolPart,
    latest: bool,
)
    ensures
        ({
            let s = summarized(state, chat, entry, part, latest);
            &&& s.id == part.id@
            &&& s.model == part.call.model.deep_view()
            &&& s.doc_ref == part.subagent_ref.deep_view()
            &&& s.latest_turn == latest
            &&& s.started == (if 0 < entry.created_at <= 8_210_266_876_799_999 {
                Some(entry.created_at)
            } else {
                None
            })
            &&& s.status is Running || s.status is Started ==> s.finished is None
        }),
{
}

/// The loaded document of a spawned agent, or no entries.
pub open spec fn document_of(state: SubagentState, part: ToolPart) -> Seq<SessionMessageEntry> {
    match part.subagent_ref {
        Some(doc) => document(state.sub_transcripts@, doc@),
        None => Seq::empty(),
    }
}

/// The finish of a settled agent is the newest time in its document, where
/// that is known, and otherwise what this session observed of it.
pub proof fn a_finish_is_documented_or_observed(
    state: SubagentState,
    chat: Seq<char>,
    entry: SessionMessageEntry,
    part: ToolPart,
    latest: bool,
    newest: int,
)
    requires
        part.is_error || part.subagent_status == Some(SubagentStatus::Done),
    ensures
        ({
            let s = summarized(state, chat, entry, part, latest);
            let observed = observed_finish(state.finished_obs@, chat + "/"@ + part.id@);
            let doc = document_of(state, part);
            &&& 0 <= newest < doc.len() && 0 < doc[newest].created_at <= 8_210_266_876_799_999 && (
            forall|i: int|
                0 <= i < doc.len() ==> (#[trigger] doc[i]).created_at <= doc[newest].created_at)
                ==> s.finished == Some(doc[newest].created_at)
            &&& doc.len() == 0 && observed is Some && 0 < observed->0 <= 8_210_266_876_799_999
                ==> s.finished == observed
            &&& doc.len() == 0 && observed is None ==> s.finished is None
        }),
{
    let doc = document_of(state, part);
    the_newest_time_is_the_latest(doc);
    if 0 <= newest < doc.len() {
        let at = choose|i: int|
            0 <= i < doc.len() && (#[trigger] doc[i]).created_at == newest_time(doc)->0;
        assert(doc[newest].created_at <= newest_time(doc)->0);
        assert(doc[at].created_at == newest_time(doc)->0);
    }
}

/// The newest time of a document is one of its times, and none is later.
pub proof fn the_newest_time_is_the_latest(entries: Seq<SessionMessageEntry>)
    ensures
        newest_time(entries) is None <==> entries.len() == 0,
        newest_time(entries) matches Some(time) ==> (forall|i: int|
            0 <= i < entries.len() ==> (#[trigger] entries[i]).created_at <= time) && exists|
            i: int,
        |
            0 <= i < entries.len() && (#[trigger] entries[i]).created_at == time,
    decreases entries.len(),
{
    if entries.len() > 0 {
        let front = entries.drop_last();
        the_newest_time_is_the_latest(front);
        assert forall|i: int| 0 <= i < front.len() implies front[i] == #[trigger] entries[i] by {}
        assert(entries[entries.len() - 1] == entries.last());
        if front.len() > 0 {
            let i = choose|i: int|
                0 <= i < front.len() && (#[trigger] front[i]).created_at == newest_time(front)->0;
            assert(entries[i] == front[i]);
        }
        assert forall|i: int| 0 <= i < entries.len() implies (
        #[trigger] entries[i]).created_at <= newest_time(entries)->0 by {
            if i < front.len() {
                assert(front[i].created_at <= newest_time(front)->0);
            }
        }
    }
}

/// A document is the one loaded under its name, the first where there are
/// more, and empty where there is none.
pub proof fn a_document_is_found_by_its_name(
    docs: Seq<(String, Vec<SessionMessageEntry>)>,
    id: Seq<char>,
    at: int,
)
    requires
        0 <= at <= docs.len(),
        forall|i: int| 0 <= i < at ==> (#[trigger] docs[i]).0@ != id,
        at < docs.len() ==> docs[at].0@ == id,
    ensures
        at < docs.len() ==> document(docs, id) == docs[at].1@,
        at == docs.len() ==> document(docs, id).len() == 0,
    decreases at,
{
    if at > 0 {
        assert(docs[0].0@ != id);
        let rest = docs.subrange(1, docs.len() as int);
        assert forall|i: int| 0 <= i < at - 1 implies (#[trigger] rest[i]).0@ != id by {
            assert(rest[i] == docs[i + 1]);
        }
        a_document_is_found_by_its_name(rest, id, at - 1);
    }
}

/// The selected chat's entries are its transcript; another chat's are its
/// loaded document.
pub proof fn a_chat_is_read_where_it_is_loaded(state: SubagentState, chat: Seq<char>)
    ensures
        state.selected_chat.deep_view() == Some(chat) ==> entries_of(state, chat)
            == state.transcript@,
        state.selected_chat.deep_view() != Some(chat) ==> entries_of(state, chat) == document(
            state.sub_transcripts@,
            chat,
        ),
{
}

/// A finish observed under a key is the first that was noted there.
pub proof fn an_observed_finish_is_the_first_noted(
    obs: Seq<(String, i64)>,
    key: Seq<char>,
    at: int,
)
    requires
        0 <= at <= obs.len(),
        forall|i: int| 0 <= i < at ==> (#[trigger] obs[i]).0@ != key,
        at < obs.len() ==> obs[at].0@ == key,
    ensures
        observed_finish(obs, key) == (if at < obs.len() {
            Some(obs[at].1)
        } else {
            None
        }),
    decreases at,
{
    if at > 0 {
        assert(obs[0].0@ != key);
        let rest = obs.subrange(1, obs.len() as int);
        assert forall|i: int| 0 <= i < at - 1 implies (#[trigger] rest[i]).0@ != key by {
            assert(rest[i] == obs[i + 1]);
        }
        an_observed_finish_is_the_first_noted(rest, key, at - 1);
    }
}

/// No user entry stands behind a place.
pub open spec fn in_latest_turn(entries: Seq<SessionMessageEntry>, at: int) -> bool {
    forall|i: int| at < i < entries.len() ==> !((#[trigger] entries[i]).role is User)
}

proof fn the_latest_turn_begins_at_the_last_user(entries: Seq<SessionMessageEntry>, at: int)
    requires
        0 <= at < entries.len(),
    ensures
        at >= last_user(entries) <==> in_latest_turn(entries, at),
        0 <= last_user(entries) <= entries.len(),
    decreases entries.len(),
{
    if entries.last().role is User {
        assert(entries[entries.len() - 1] == entries.last());
    } else {
        let front = entries.drop_last();
        if at < front.len() {
            the_latest_turn_begins_at_the_last_user(front, at);
            assert forall|i: int| 0 <= i < front.len() implies front[i] == #[trigger] entries[i] by {}
            if in_latest_turn(front, at) {
                assert forall|i: int| at < i < entries.len() implies !((
                #[trigger] entries[i]).role is User) by {
                    if i < front.len() {
                        assert(!(front[i].role is User));
                    }
                }
            }
            if in_latest_turn(entries, at) {
                assert forall|i: int| at < i < front.len() implies !((
                #[trigger] front[i]).role is User) by {
                    assert(!(entries[i].role is User));
                }
            }
        } else {
            last_user_bounds(front);
        }
    }
}

proof fn last_user_bounds(entries: Seq<SessionMessageEntry>)
    ensures
        0 <= last_user(entries) <= entries.len(),
    decreases entries.len(),
{
    if entries.len() > 0 && !(entries.last().role is User) {
        last_user_bounds(entries.drop_last());
    }
}

/// A spawn call of the assistant at a place of the transcript.
pub open spec fn spawn_at(
    entries: Seq<SessionMessageEntry>,
    e: int,
    p: int,
) -> Option<ToolPart> {
    if 0 <= e < entries.len() && !(entries[e].role is User) && 0 <= p < entries[e].parts@.len() {
        match entries[e].parts@[p] {
            MessagePart::Tool(part) if part.call.spawn => Some(part),
            _ => None,
        }
    } else {
        None
    }
}

/// The summary tells of the spawn at that place.
#[verifier::opaque]
pub open spec fn tells_of(
    state: SubagentState,
    chat: Seq<char>,
    entries: Seq<SessionMessageEntry>,
    e: int,
    p: int,
    s: Summary,
) -> bool {
    &&& spawn_at(entries, e, p) is Some
    &&& s == summarized(
        state,
        chat,
        entries[e],
        spawn_at(entries, e, p)->0,
        in_latest_turn(entries, e),
    )
}

/// The summary tells of some spawn.
pub open spec fn tells_of_some(
    state: SubagentState,
    chat: Seq<char>,
    entries: Seq<SessionMessageEntry>,
    s: Summary,
) -> bool {
    exists|e: int, p: int| #[trigger] tells_of(state, chat, entries, e, p, s)
}

/// One of the summaries tells of the spawn at that place.
pub open spec fn is_told(
    state: SubagentState,
    chat: Seq<char>,
    entries: Seq<SessionMessageEntry>,
    e: int,
    p: int,
    listed: Seq<Summary>,
) -> bool {
    exists|k: int|
        0 <= k < listed.len() && tells_of(state, chat, entries, e, p, #[trigger] listed[k])
}

/// What is told stays told in a longer list.
proof fn told_in_more(
    state: SubagentState,
    chat: Seq<char>,
    entries: Seq<SessionMessageEntry>,
    e: int,
    p: int,
    front: Seq<Summary>,
    back: Seq<Summary>,
)
    ensures
        is_told(state, chat, entries, e, p, front) || is_told(state, chat, entries, e, p, back)
            ==> is_told(state, chat, entries, e, p, front + back),
{
    let both = front + back;
    if is_told(state, chat, entries, e, p, front) {
        let k = choose|k: int|
            0 <= k < front.len() && tells_of(state, chat, entries, e, p, #[trigger] front[k]);
        assert(both[k] == front[k]);
    } else if is_told(state, chat, entries, e, p, back) {
        let k = choose|k: int|
            0 <= k < back.len() && tells_of(state, chat, entries, e, p, #[trigger] back[k]);
        assert(both[front.len() + k] == back[k]);
    }
}

proof fn spawns_of_an_entry(
    state: SubagentState,
    chat: Seq<char>,
    entries: Seq<SessionMessageEntry>,
    e: int,
    n: nat,
)
    requires
        0 <= e < entries.len(),
        !(entries[e].role is User),
        n <= entries[e].parts@.len(),
    ensures
        ({
            let listed = spawns_in(state, chat, entries[e], in_latest_turn(entries, e), n);
            &&& forall|k: int|
                0 <= k < listed.len() ==> tells_of_some(
                    state,
                    chat,
                    entries,
                    #[trigger] listed[k],
                )
            &&& forall|p: int|
                0 <= p < n && #[trigger] spawn_at(entries, e, p) is Some ==> is_told(
                    state,
                    chat,
                    entries,
                    e,
                    p,
                    listed,
                )
        }),
    decreases n,
{
    if n > 0 {
        let latest = in_latest_turn(entries, e);
        let before = spawns_in(state, chat, entries[e], latest, (n - 1) as nat);
        let listed = spawns_in(state, chat, entries[e], latest, n);
        spawns_of_an_entry(state, chat, entries, e, (n - 1) as nat);
        let here = spawn_at(entries, e, n - 1);
        let more = if here is Some {
            seq![summarized(state, chat, entries[e], here->0, latest)]
        } else {
            Seq::empty()
        };
        assert(listed =~= before + more);
        if here is Some {
            assert(tells_of(state, chat, entries, e, n - 1, more[0])) by {
                reveal(tells_of);
            }
            assert(tells_of_some(state, chat, entries, more[0]));
            assert(is_told(state, chat, entries, e, n - 1, more));
        }
        assert forall|p: int| 0 <= p < n && #[trigger] spawn_at(entries, e, p) is Some implies is_told(
            state,
            chat,
            entries,
            e,
            p,
            listed,
        ) by {
            told_in_more(state, chat, entries, e, p, before, more);
        }
    }
}

proof fn spawns_of_entries(state: SubagentState, chat: Seq<char>, n: nat)
    requires
        n <= entries_of(state, chat).len(),
    ensures
        ({
            let entries = entries_of(state, chat);
            let listed = spawns_of(state, chat, n);
            &&& forall|k: int|
                0 <= k < listed.len() ==> tells_of_some(
                    state,
                    chat,
                    entries,
                    #[trigger] listed[k],
                )
            &&& forall|e: int, p: int|
                0 <= e < n && #[trigger] spawn_at(entries, e, p) is Some ==> is_told(
                    state,
                    chat,
                    entries,
                    e,
                    p,
                    listed,
                )
        }),
    decreases n,
{
    let entries = entries_of(state, chat);
    if n > 0 {
        spawns_of_entries(state, chat, (n - 1) as nat);
        let before = spawns_of(state, chat, (n - 1) as nat);
        let listed = spawns_of(state, chat, n);
        let last = entries[n - 1];
        the_latest_turn_begins_at_the_last_user(entries, n - 1);
        let more = if last.role is User {
            Seq::empty()
        } else {
            spawns_in(state, chat, last, in_latest_turn(entries, n - 1), last.parts@.len())
        };
        assert(listed =~= before + more);
        if !(last.role is User) {
            spawns_of_an_entry(state, chat, entries, n - 1, last.parts@.len());
        }
        assert forall|e: int, p: int|
            0 <= e < n && #[trigger] spawn_at(entries, e, p) is Some implies is_told(
            state,
            chat,
            entries,
            e,
            p,
            listed,
        ) by {
            told_in_more(state, chat, entries, e, p, before, more);
        }
    }
}

/// Every spawn of the assistant in a chat is listed, and nothing else is: each
/// listed agent tells of one spawn call, and counts to the latest turn exactly
/// where no user entry follows it.
pub proof fn every_spawn_is_listed(state: SubagentState, chat: Seq<char>)
    ensures
        ({
            let entries = entries_of(state, chat);
            let listed = all_spawns(state, chat);
            &&& forall|k: int|
                0 <= k < listed.len() ==> tells_of_some(
                    state,
                    chat,
                    entries,
                    #[trigger] listed[k],
                )
            &&& forall|e: int, p: int| #[trigger]
                spawn_at(entries, e, p) is Some ==> is_told(state, chat, entries, e, p, listed)
        }),
{
    spawns_of_entries(state, chat, entries_of(state, chat).len());
}

/// An agent that is owed a report.
pub open spec fn owed(s: Summary) -> bool {
    s.status is Running || s.status is Started
}

/// In the list those that are owed a report come first, the one that started
/// first at their head; the settled follow, the one heard of last at their
/// head. None is lost and none is listed twice.
pub proof fn the_list_is_ordered(items: Seq<Summary>, sorted: Seq<Summary>, i: int, j: int)
    requires
        sorted_as(items, sorted),
        0 <= i < j < sorted.len(),
    ensures
        sorted.len() == items.len(),
        owed(sorted[j]) ==> owed(sorted[i]),
        owed(sorted[j]) && sorted[i].started is Some && sorted[j].started is Some
            ==> sorted[i].started->0 <= sorted[j].started->0,
        owed(sorted[j]) && sorted[j].started is None ==> sorted[i].started is None,
        !owed(sorted[i]) && sorted[i].finished is Some && sorted[j].finished is Some
            ==> sorted[i].finished->0 >= sorted[j].finished->0,
        !owed(sorted[i]) && sorted[i].finished is None && sorted[i].started is Some
            && sorted[j].finished is Some ==> sorted[i].started->0 >= sorted[j].finished->0,
        !owed(sorted[i]) && sorted[i].finished is Some && sorted[j].finished is None
            && sorted[j].started is Some ==> sorted[i].finished->0 >= sorted[j].started->0,
        !owed(sorted[i]) && sorted[i].finished is None && sorted[i].started is None
            ==> sorted[j].finished is None && sorted[j].started is None,
{
    let order = choose|order: Seq<int>|
        #![trigger display_order(items, order)]
        display_order(items, order) && sorted == order.map_values(|i: int| items[i]);
    assert(shown_before(items, order[i], order[j]));
    assert(sorted[i] == items[order[i]]);
    assert(sorted[j] == items[order[j]]);
}

/// Each item of a chat has its one place in the list.
pub proof fn the_list_shows_each_once(items: Seq<Summary>, sorted: Seq<Summary>)
    requires
        sorted_as(items, sorted),
    ensures
        exists|order: Seq<int>|
            {
                &&& order.len() == items.len()
                &&& order.no_duplicates()
                &&& forall|k: int|
                    0 <= k < sorted.len() ==> 0 <= #[trigger] order[k] < items.len() && sorted[k]
                        == items[order[k]]
            },
{
    let order = choose|order: Seq<int>|
        #![trigger display_order(items, order)]
        display_order(items, order) && sorted == order.map_values(|i: int| items[i]);
    assert(order.no_duplicates()) by {
        assert forall|a: int, b: int|
            0 <= a < order.len() && 0 <= b < order.len() && a != b implies order[a] != order[b] by {
            if a < b {
                assert(shown_before(items, order[a], order[b]));
            } else {
                assert(shown_before(items, order[b], order[a]));
            }
        }
    }
}

/// What is remembered after a look at a chat: each agent that was seen running
/// or started counts as seen, and one that settled without a known finish is
/// stamped with now, once, where it had been seen.
pub proof fn a_look_remembers_what_it_saw(
    before: SubagentState,
    after: SubagentState,
    chat: Seq<char>,
    shown: Seq<Summary>,
    now: i64,
    i: int,
)
    requires
        observed_after(before, after, chat, shown, now),
        0 <= i < shown.len(),
    ensures
        ({
            let key = chat + "/"@ + shown[i].id;
            &&& owed(shown[i]) ==> observed_active(after.active_obs@, key)
            &&& observed_active(before.active_obs@, key) ==> observed_active(after.active_obs@, key)
            &&& !owed(shown[i]) && shown[i].finished is None && observed_active(
                before.active_obs@,
                key,
            ) && observed_finish(before.finished_obs@, key) is None ==> observed_finish(
                after.finished_obs@,
                key,
            ) == Some(now)
            &&& observed_finish(before.finished_obs@, key) is Some ==> observed_finish(
                after.finished_obs@,
                key,
            ) == observed_finish(before.finished_obs@, key)
            &&& !observed_active(after.active_obs@, key) ==> observed_finish(
                after.finished_obs@,
                key,
            ) == observed_finish(before.finished_obs@, key)
        }),
{
    let key = chat + "/"@ + shown[i].id;
    assert(observation_key(chat, shown[i].id) == key);
    if owed(shown[i]) {
        assert(active_under(shown, chat, key));
    }
}

/// Two agents of one chat are never remembered under one key.
pub proof fn agents_are_remembered_apart(chat: Seq<char>, one: Seq<char>, other: Seq<char>)
    requires
        observation_key(chat, one) == observation_key(chat, other),
    ensures
        one == other,
{
    let key = observation_key(chat, one);
    assert(key.subrange((chat + "/"@).len() as int, key.len() as int) =~= one);
    assert(key.subrange((chat + "/"@).len() as int, key.len() as int) =~= other);
}

/// Whole seconds of a running time.
pub proof fn seconds_are_whole(start: int, end: int)
    requires
        start <= end,
    ensures
        1000 * seconds_between(start, end) <= end - start < 1000 * (seconds_between(start, end)
            + 1),
{
}

/// A running time reads in seconds under a minute, in minutes under an hour,
/// and in hours and minutes from there on; one that runs backwards reads as
/// nothing.
pub proof fn a_running_time_reads_in_its_largest_units(seconds: int)
    ensures
        seconds < 0 ==> elapsed_text(seconds) == "0s"@,
        1 <= seconds < 60 ==> elapsed_text(seconds) == decimal_text(seconds as nat) + "s"@,
        forall|minutes: int|
            1 <= minutes < 60 && 60 * minutes <= seconds < 60 * minutes + 60 ==> elapsed_text(
                seconds,
            ) == #[trigger] decimal_text(minutes as nat) + "m"@,
        forall|hours: int, minutes: int|
            1 <= hours && 0 <= minutes < 60 && 3600 * hours + 60 * minutes <= seconds < 3600 * hours
                + 60 * minutes + 60 ==> elapsed_text(seconds) == #[trigger] decimal_text(
                hours as nat,
            ) + "h "@ + #[trigger] decimal_text(minutes as nat) + "m"@,
{
    assert forall|hours: int, minutes: int|
        1 <= hours && 0 <= minutes < 60 && 3600 * hours + 60 * minutes <= seconds < 3600 * hours
            + 60 * minutes + 60 implies elapsed_text(seconds) == #[trigger] decimal_text(
        hours as nat,
    ) + "h "@ + #[trigger] decimal_text(minutes as nat) + "m"@ by {
        assert(seconds / 3600 == hours) by (nonlinear_arith)
            requires
                3600 * hours <= seconds < 3600 * hours + 3600,
        ;
        assert(seconds % 3600 == seconds - 3600 * hours) by (nonlinear_arith)
            requires
                seconds / 3600 == hours,
        ;
        assert((seconds % 3600) / 60 == minutes);
    }
}

/// The clock of an agent that is owed a report runs on with now; a settled
/// one's stands still at its finish.
pub proof fn a_settled_clock_stands_still(s: Summary, now: i64, later: i64)
    ensures
        !owed(s) ==> s.elapsed(now) == s.elapsed(later),
        owed(s) && s.started is Some ==> s.elapsed(now) == Some(
            elapsed_text(seconds_between(s.started->0 as int, now as int)),
        ),
        !owed(s) && s.started is Some && s.finished is Some ==> s.elapsed(now) == Some(
            elapsed_text(seconds_between(s.started->0 as int, s.finished->0 as int)),
        ),
        s.started is None ==> s.elapsed(now) is None,
{
}

/// A moment is written by its year, month, day, hour and minute, in UTC.
pub proof fn a_moment_is_written_in_utc(ms: i64)
    ensures
        0 <= ms <= 8_210_266_876_799_999 ==> moment_text(ms) == Some(
            utc_text(ms, "%Y-%m-%d %H:%M UTC"@),
        ),
        ms > 8_210_266_876_799_999 ==> moment_text(ms) is None && instant(ms) is None,
        ms <= 0 ==> instant(ms) is None,
        0 < ms <= 8_210_266_876_799_999 ==> instant(ms) == Some(ms),
{
}

/// A title is never empty, never longer than forty characters, and says more
/// than "agent" unless the spawn says no more.
pub proof fn a_title_says_something(tool: Tool)
    ensures
        title_of(tool) == "Agent"@ || {
            &&& 0 < title_of(tool).len() <= 40
            &&& exists|candidate: Seq<char>|
                {
                    &&& #[trigger] title_from(candidate) == Some(title_of(tool))
                    &&& title_of(tool).is_prefix_of(one_line_of(candidate))
                    &&& !same_ignoring_ascii_case(one_line_of(candidate), "agent"@)
                }
        },
{
}

/// A name that says something is the title, cut at forty characters; else the
/// description is; else the title is "Agent".
pub proof fn a_title_comes_from_the_name_first(
    name: String,
    input: Option<Json>,
    members: Vec<(String, Json)>,
    text: String,
)
    requires
        input == Some(Json::Object(members)),
        lookup(members@, "description"@) == Some(Json::Text(text)),
        !"Agent: "@.is_prefix_of(name@),
        !"Task: "@.is_prefix_of(name@),
    ensures
        ({
            let title = title_of(Tool::Unknown { name, input });
            let named = one_line_of(name@);
            let described = one_line_of(text@);
            let by_name = named.len() > 0 && !same_ignoring_ascii_case(named, "agent"@);
            let by_description = described.len() > 0 && !same_ignoring_ascii_case(
                described,
                "agent"@,
            );
            &&& title == title_of(Tool::Mcp { tool: name, input })
            &&& by_name ==> title.is_prefix_of(named) && (title == named || title.len() == 40)
            &&& !by_name && by_description ==> title.is_prefix_of(described) && (title == described
                || title.len() == 40)
            &&& !by_name && !by_description ==> title == "Agent"@
        }),
{
}

/// A leading genus is cut from a spawn's name.
pub proof fn a_genus_is_cut(rest: Seq<char>)
    ensures
        without_genus("Agent: "@ + rest) == rest,
        without_genus("Task: "@ + rest) == rest,
{
    reveal_strlit("Agent: ");
    reveal_strlit("Task: ");
    let agent = "Agent: "@ + rest;
    assert("Agent: "@.is_prefix_of(agent));
    assert(agent.subrange("Agent: "@.len() as int, agent.len() as int) =~= rest);
    let task = "Task: "@ + rest;
    assert("Task: "@.is_prefix_of(task));
    assert(task[0] == 'T');
    assert(!"Agent: "@.is_prefix_of(task)) by {
        assert("Agent: "@[0] == 'A');
    }
    assert(task.subrange("Task: "@.len() as int, task.len() as int) =~= rest);
}

/// A result line of up to 120 characters is the first line that says
/// something, and a longer one is cut to 120, of which the last is an ellipsis.
pub proof fn a_long_result_ends_in_an_ellipsis(text: Seq<char>, line: Seq<char>)
    requires
        meaningful_line(text) == Some(line),
    ensures
        line.len() <= 120 ==> result_line(text) == Some(line),
        line.len() > 120 ==> {
            &&& result_line(text) is Some
            &&& result_line(text)->0.len() == 120
            &&& result_line(text)->0.last() == '…'
            &&& result_line(text)->0.take(119) == line.take(119)
        },
{
    if line.len() > 120 {
        assert(result_line(text)->0.take(119) =~= line.take(119));
    }
}

/// What is shown under a title is the result's line, else the live tail's, else
/// the newest text of the agent's document.
pub proof fn a_result_is_shown_before_its_tail(
    part: ToolPart,
    docs: Seq<(String, Vec<SessionMessageEntry>)>,
)
    ensures
        ({
            let shown = summary_of(part, docs);
            let output = match part.output {
                Some(text) => result_line(text@),
                None => None,
            };
            let tail = match part.subagent_tail {
                Some(text) => result_line(text@),
                None => None,
            };
            let documented = match part.subagent_ref {
                Some(doc) => newest_text(document(docs, doc@)),
                None => None,
            };
            &&& output is Some ==> shown == output
            &&& output is None && tail is Some ==> shown == tail
            &&& output is None && tail is None ==> shown == documented
        }),
{
}

/// The text of a message is the line of its first text that has one.
pub proof fn a_message_speaks_by_its_first_text(parts: Seq<MessagePart>, at: int)
    requires
        0 <= at <= parts.len(),
        forall|i: int|
            0 <= i < at ==> (#[trigger] parts[i] matches MessagePart::Text { text } ==> result_line(
                text@,
            ) is None),
        at < parts.len() ==> (parts[at] matches MessagePart::Text { text } && result_line(
            text@,
        ) is Some),
    ensures
        at < parts.len() ==> first_text(parts) == result_line(parts[at]->text@),
        at == parts.len() ==> first_text(parts) is None,
    decreases at,
{
    if at > 0 {
        assert(parts[0] matches MessagePart::Text { text } ==> result_line(text@) is None);
        let rest = parts.subrange(1, parts.len() as int);
        assert forall|i: int| 0 <= i < at - 1 implies (
        #[trigger] rest[i] matches MessagePart::Text { text } ==> result_line(text@) is None) by {
            assert(rest[i] == parts[i + 1]);
        }
        a_message_speaks_by_its_first_text(rest, at - 1);
        if at < parts.len() {
            assert(rest[at - 1] == parts[at]);
        }
    }
}

/// A document speaks by its newest message that says something.
pub proof fn a_document_speaks_by_its_newest_message(
    entries: Seq<SessionMessageEntry>,
    at: int,
)
    requires
        0 <= at < entries.len(),
        first_text(entries[at].parts@) is Some,
        forall|i: int|
            at < i < entries.len() ==> first_text((#[trigger] entries[i]).parts@) is None,
    ensures
        newest_text(entries) == first_text(entries[at].parts@),
    decreases entries.len(),
{
    assert(entries[entries.len() - 1] == entries.last());
    if at < entries.len() - 1 {
        let front = entries.drop_last();
        assert forall|i: int| at < i < front.len() implies first_text(
            (#[trigger] front[i]).parts@,
        ) is None by {
            assert(front[i] == entries[i]);
        }
        a_document_speaks_by_its_newest_message(front, at);
    }
}

/// A text of an input is trimmed, and one of white space alone is none.
pub proof fn an_input_text_says_something(members: Vec<(String, Json)>, key: Seq<char>)
    ensures
        input_text(Some(Json::Object(members)), key) matches Some(text) ==> {
            &&& text.len() > 0
            &&& trimmed(text) == text
            &&& lookup(members@, key) matches Some(Json::Text(written)) && trimmed(written@)
                == text
        },
        lookup(members@, key) matches Some(Json::Text(written)) && trimmed(written@).len() > 0
            ==> input_text(Some(Json::Object(members)), key) is Some,
{
    if let Some(Json::Text(written)) = lookup(members@, key) {
        trimming_is_settled(written@);
    }
}

/// The tray shows the agents of the latest turn and those that are known to
/// run, and no others.
pub proof fn the_tray_shows_the_latest_turn_and_what_runs(s: Summary)
    ensures
        s.latest_turn ==> on_strip(s),
        s.status is Running ==> on_strip(s),
        !s.latest_turn && (s.status is Started || s.status is Done || s.status is Failed)
            ==> !on_strip(s),
{
}

} // verus!
