//! What holds of what is drawn: agents on the tray and in the panel, the plan,
//! avatars, tool hues, and the headers of panes.
use vstd::prelude::*;
use vstd::utf8::encode_utf8;
use crate::agents_view::{
    agents_panel_body, agents_tray_row, glyph_of, line_of, listed, meta_of as agent_meta, panel,
    panel_row, pill_fits, pill_width_of, rows_of, running_of, seen_in_panel, seen_on_tray,
    settled_count, shown_of, sidebar_children, the_tray_is_packed_to_the_first_misfit, tray_used,
    Glyph, PanelRow, PanelView, SidebarRows, TrayRow,
};
use crate::clock::{elapsed_text, seconds_between};
use crate::drag_laws::the_first_item_is_the_first;
use crate::entry::{MessagePart, SessionMessageEntry, TodoItem, Tool, ToolCall};
use crate::layout::{Arrangement, Layout, Pane, PaneId, PaneMode, Region, TabId, ViewId};
use crate::list::first_place;
use crate::pane_header::{
    badges_of, chat_of, chip_of, chips_of, context_of, frame_of, frames_of, identity_of, is_named,
    is_pane_of, is_pick, is_tab_of, meta_of, name_of, project_of, render_primary_pane_header,
    title_of, view_frame, workspace_snapshot, BadgeSlot, ChatRow, Identity, Mark, Named, Picks,
    PrimaryHeader, Rows, ViewSnap,
};
use crate::plan_hud::{
    done_count, first_open, newest_list, newest_list_in, plan_progress_from_items, progress_of,
    render, PlanProgress, PlanStrip,
};
use crate::sidebar_buddy::{
    animation, avatar_for_session, badge_tint, bot_at, bot_of, byte_hash, update_buddy, Animation,
    BotImage, Buddy, BuddyChange,
};
use crate::status_palette::{diff_colors, ChatIndicator, SessionState};
use crate::subagents::{SubagentPhase, SubagentSummary, Summary};
use crate::text::{decimal_text, one_line_of, trimmed};
use crate::theme::{Theme, Tint};
use crate::tool_palette::{family_of, family_tint, ToolFamily};

verus! {

/// Each phase has its own mark; a finished agent's fades once it was seen.
pub proof fn a_phase_has_its_mark(theme: Theme, seen: bool)
    ensures
        glyph_of(SubagentPhase::Running, seen, theme) is Equalizer,
        glyph_of(SubagentPhase::Started, seen, theme) == Glyph::Dot(
            Tint { color: theme.text_faint, percent: 100 },
        ),
        glyph_of(SubagentPhase::Failed, seen, theme) == Glyph::Triangle(
            Tint { color: theme.danger, percent: 100 },
        ),
        glyph_of(SubagentPhase::Done, seen, theme) is Check,
        glyph_of(SubagentPhase::Done, true, theme) == Glyph::Check(
            Tint { color: theme.text_faint, percent: 100 },
        ),
        theme.text_faint != 0x6ee7b7 && theme.text_faint != 0x059669 ==> glyph_of(
            SubagentPhase::Done,
            false,
            theme,
        ) != glyph_of(SubagentPhase::Done, true, theme),
{
}

/// The settled agents are those that are done or failed, each counted once.
pub proof fn settled_agents_are_counted(all: Seq<Summary>)
    ensures
        settled_count(all) == all.filter(
            |s: Summary| s.status is Done || s.status is Failed,
        ).len(),
        settled_count(all) <= all.len(),
    decreases all.len(),
{
    reveal(Seq::filter);
    if all.len() > 0 {
        settled_agents_are_counted(all.drop_last());
    }
}

/// A line shows its own agent: its title, its phase and its running time.
pub proof fn a_line_shows_its_agent(
    prefix: Seq<char>,
    s: Summary,
    seen: bool,
    theme: Theme,
    now: i64,
)
    ensures
        ({
            let line = line_of(prefix, s, seen, theme, now);
            &&& line.title == s.title
            &&& line.key == prefix + s.id
            &&& line.glyph is Equalizer <==> s.status is Running
            &&& line.glyph is Triangle <==> s.status is Failed
            &&& s.started is Some && (s.status is Running || s.status is Started) ==> line.elapsed
                == Some(elapsed_text(seconds_between(s.started->0 as int, now as int)))
            &&& s.started is None ==> line.elapsed is None
        }),
{
}

/// The pills of a tray are all that fit before the first that does not: a pill
/// takes up its title, at most twenty-two characters of it, and room is kept
/// for what is left out.
pub proof fn a_tray_shows_what_fits(all: Seq<Summary>, width: int, k: int)
    requires
        0 <= k < all.len(),
    ensures
        all[k].title.len() >= 22 ==> pill_width_of(all[k].title.len()) == 740 + 66 * 22,
        all[k].title.len() < 22 ==> pill_width_of(all[k].title.len()) == 740 + 66
            * all[k].title.len(),
        tray_used(all, 0) == 1080,
        tray_used(all, k + 1) == tray_used(all, k) + pill_width_of(all[k].title.len()) + 60,
        pill_fits(all, k, width) <==> tray_used(all, k) + pill_width_of(all[k].title.len()) + (if k
            == all.len() - 1 {
            0int
        } else {
            440
        }) <= width,
{
}

/// A wider tray never shows fewer pills.
pub proof fn a_wider_tray_shows_no_less(all: Seq<Summary>, narrow: int, wide: int)
    requires
        narrow <= wide,
    ensures
        shown_of(all, narrow) <= shown_of(all, wide) <= all.len(),
{
    crate::agents_view::the_tray_is_packed_to_the_first_misfit(all, narrow);
    crate::agents_view::the_tray_is_packed_to_the_first_misfit(all, wide);
    let cut = shown_of(all, wide);
    if cut < shown_of(all, narrow) {
        assert(pill_fits(all, cut, narrow));
    }
}

/// An agent counts as seen on the tray under its own id or under the chat's
/// key of it, and in the panel under its id or its document.
pub proof fn an_opened_thread_counts_as_seen(seen: Seq<String>, chat: Seq<char>, s: Summary, i: int)
    requires
        0 <= i < seen.len(),
    ensures
        seen[i]@ == s.id ==> seen_on_tray(seen, chat, s) && seen_in_panel(seen, s),
        seen[i]@ == chat + "/"@ + s.id ==> seen_on_tray(seen, chat, s),
        s.doc_ref == Some(seen[i]@) ==> seen_in_panel(seen, s),
        seen_on_tray(Seq::empty(), chat, s) == false,
        seen_in_panel(Seq::empty(), s) == false,
{
    if seen[i]@ == s.id {
        assert(listed(seen, s.id));
    }
    if seen[i]@ == chat + "/"@ + s.id {
        assert(listed(seen, chat + "/"@ + s.id));
    }
    if s.doc_ref == Some(seen[i]@) {
        assert(listed(seen, s.doc_ref->0));
    }
}

/// The agents below a chat card are those that are known to run, in order.
pub proof fn a_chat_card_lists_what_runs(all: Seq<Summary>, i: int)
    requires
        0 <= i < running_of(all).len(),
    ensures
        running_of(all)[i].status is Running,
        all.contains(running_of(all)[i]),
    decreases all.len(),
{
    reveal(Seq::filter);
    let front = all.drop_last();
    let before = running_of(front);
    if i < before.len() {
        a_chat_card_lists_what_runs(front, i);
        let s = before[i];
        assert(all[front.index_of(s)] == s);
        assert(running_of(all)[i] == s);
    } else {
        assert(all[all.len() - 1] == all.last());
    }
}

/// The panel shows the agents that are owed a report below one heading and the
/// settled ones below another, each with its own row.
pub proof fn the_panel_parts_active_from_settled(
    all: Seq<Summary>,
    seen: Seq<String>,
    theme: Theme,
    now: i64,
    i: int,
)
    requires
        0 <= i < all.len(),
    ensures
        all[i].status is Running || all[i].status is Started ==> rows_of(
            all,
            true,
            seen,
            theme,
            now,
        ).contains(panel_row(all[i], seen, theme, now)),
        all[i].status is Done || all[i].status is Failed ==> rows_of(
            all,
            false,
            seen,
            theme,
            now,
        ).contains(panel_row(all[i], seen, theme, now)),
    decreases all.len(),
{
    let front = all.drop_last();
    let active = all[i].status is Running || all[i].status is Started;
    let before = rows_of(front, active, seen, theme, now);
    let rows = rows_of(all, active, seen, theme, now);
    let row = panel_row(all[i], seen, theme, now);
    if i < front.len() {
        the_panel_parts_active_from_settled(front, seen, theme, now, i);
        assert(front[i] == all[i]);
        assert(rows[before.index_of(row)] == row);
    } else {
        assert(rows[before.len() as int] == row);
    }
}

/// The panel's headings: what is active, and how many are done.
pub proof fn the_panel_counts_the_settled(
    all: Seq<Summary>,
    seen: Seq<String>,
    theme: Theme,
    now: i64,
)
    ensures
        rows_of(all, true, seen, theme, now).len() > 0 ==> panel(all, seen, theme, now)[0]
            == PanelView::Section("Active"@),
        rows_of(all, true, seen, theme, now).len() == 0 && rows_of(
            all,
            false,
            seen,
            theme,
            now,
        ).len() > 0 ==> panel(all, seen, theme, now)[0] == PanelView::Section(
            "Done · "@ + decimal_text(settled_count(all)),
        ),
{
}

/// An agent's row tells its type and its model, whichever are known, and is
/// bare where it has neither these nor a summary.
pub proof fn a_panel_row_tells_of_its_agent(
    s: Summary,
    seen: Seq<String>,
    theme: Theme,
    now: i64,
)
    ensures
        s.agent_type is Some && s.model is Some ==> agent_meta(s) == s.agent_type->0 + " · "@
            + s.model->0,
        s.agent_type is Some && s.model is None ==> agent_meta(s) == s.agent_type->0,
        s.agent_type is None && s.model is Some ==> agent_meta(s) == s.model->0,
        s.agent_type is None && s.model is None ==> agent_meta(s).len() == 0,
        panel_row(s, seen, theme, now) matches PanelView::Agent { line, summary, meta, bare }
            && line.title == s.title && summary == s.summary && meta == agent_meta(s) && (bare
            <==> s.summary is None && agent_meta(s).len() == 0),
{
}

/// The steps that are done are counted one by one, and the step shown is the
/// first that is not.
pub proof fn a_plan_shows_its_first_open_step(items: Seq<TodoItem>, at: int)
    requires
        0 <= at <= items.len(),
        forall|i: int| 0 <= i < at ==> (#[trigger] items[i]).done,
        at < items.len() ==> !items[at].done,
    ensures
        at < items.len() ==> first_open(items) == Some(items[at].text@),
        at == items.len() ==> first_open(items) is None,
        done_count(items) == items.filter(|item: TodoItem| item.done).len(),
    decreases items.len(),
{
    steps_done_are_counted(items);
    if at > 0 {
        assert(items[0].done);
        let rest = items.subrange(1, items.len() as int);
        assert forall|i: int| 0 <= i < at - 1 implies (#[trigger] rest[i]).done by {
            assert(rest[i] == items[i + 1]);
        }
        a_plan_shows_its_first_open_step(rest, at - 1);
    }
}

proof fn steps_done_are_counted(items: Seq<TodoItem>)
    ensures
        done_count(items) == items.filter(|item: TodoItem| item.done).len(),
    decreases items.len(),
{
    reveal(Seq::filter);
    if items.len() > 0 {
        steps_done_are_counted(items.drop_last());
    }
}

/// It is a todo list.
pub open spec fn todo_of(part: MessagePart) -> Option<Seq<TodoItem>> {
    match part {
        MessagePart::Tool(tool) => match tool.call.tool {
            Tool::Todo { items } => Some(items@),
            _ => None,
        },
        _ => None,
    }
}

/// The plan is the last todo list of the last message that has one.
pub proof fn the_newest_plan_counts(entries: Seq<SessionMessageEntry>, e: int, p: int)
    requires
        0 <= e < entries.len(),
        0 <= p < entries[e].parts@.len(),
        todo_of(entries[e].parts@[p]) is Some,
        forall|q: int|
            p < q < entries[e].parts@.len() ==> todo_of(#[trigger] entries[e].parts@[q]) is None,
        forall|i: int, q: int|
            e < i < entries.len() && 0 <= q < entries[i].parts@.len() ==> todo_of(
                #[trigger] entries[i].parts@[q],
            ) is None,
    ensures
        newest_list(entries) == todo_of(entries[e].parts@[p]),
    decreases entries.len(),
{
    let last = entries.last().parts@;
    if e == entries.len() - 1 {
        newest_in_parts(last, p);
    } else {
        assert forall|q: int| 0 <= q < last.len() implies todo_of(#[trigger] last[q]) is None by {
            assert(entries[entries.len() - 1].parts@[q] == last[q]);
        }
        no_list_in_parts(last);
        let front = entries.drop_last();
        assert forall|i: int, q: int|
            e < i < front.len() && 0 <= q < front[i].parts@.len() implies todo_of(
            #[trigger] front[i].parts@[q],
        ) is None by {
            assert(entries[i].parts@[q] == front[i].parts@[q]);
        }
        the_newest_plan_counts(front, e, p);
    }
}

proof fn newest_in_parts(parts: Seq<MessagePart>, p: int)
    requires
        0 <= p < parts.len(),
        todo_of(parts[p]) is Some,
        forall|q: int| p < q < parts.len() ==> todo_of(#[trigger] parts[q]) is None,
    ensures
        newest_list_in(parts) == todo_of(parts[p]),
    decreases parts.len(),
{
    if p < parts.len() - 1 {
        assert(todo_of(parts[parts.len() - 1]) is None);
        let front = parts.drop_last();
        assert forall|q: int| p < q < front.len() implies todo_of(#[trigger] front[q]) is None by {
            assert(front[q] == parts[q]);
        }
        newest_in_parts(front, p);
    }
}

proof fn no_list_in_parts(parts: Seq<MessagePart>)
    requires
        forall|q: int| 0 <= q < parts.len() ==> todo_of(#[trigger] parts[q]) is None,
    ensures
        newest_list_in(parts) is None,
    decreases parts.len(),
{
    if parts.len() > 0 {
        assert(todo_of(parts[parts.len() - 1]) is None);
        let front = parts.drop_last();
        assert forall|q: int| 0 <= q < front.len() implies todo_of(#[trigger] front[q]) is None by {
            assert(front[q] == parts[q]);
        }
        no_list_in_parts(front);
    }
}

/// The strip counts what is done of all, and says that the plan is complete
/// exactly where no step is open.
pub proof fn the_strip_says_when_a_plan_is_complete(
    progress: &PlanProgress,
    theme: &Theme,
    items: Seq<TodoItem>,
    r: PlanStrip,
)
    requires
        call_ensures(render, (progress, theme), r),
        progress_of(*progress, items),
    ensures
        r.counter@ == decimal_text(done_count(items)) + "/"@ + decimal_text(items.len()),
        first_open(items) is None ==> r.label@ == "Plan complete"@ && r.icon is Check,
        first_open(items) is Some ==> r.label@ == "Plan"@ && r.icon is Checklist,
        r.step.deep_view() == first_open(items),
{
}

/// The bar is as full as the plan is done, and empty for an empty plan.
pub proof fn the_bar_shows_the_share_done(progress: &PlanProgress, r: (usize, usize))
    requires
        call_ensures(PlanProgress::fraction, (progress,), r),
    ensures
        progress.total > 0 ==> r.0 == progress.done && r.1 == progress.total,
        progress.total == 0 ==> r.0 == 0 && r.1 > 0,
{
}

/// The nine faces are told apart, and each has its place.
pub proof fn faces_are_told_apart(i: int, j: int)
    requires
        0 <= i < j < 9,
    ensures
        bot_at(i) != bot_at(j),
        bot_at(0) is Orbit && bot_at(1) is Visor && bot_at(2) is Dome && bot_at(3) is Box,
        bot_at(4) is Ears && bot_at(5) is Halo && bot_at(6) is Sprout && bot_at(7) is Bolt,
        bot_at(8) is Basic,
{
}

/// One more byte is mixed into an avatar's hash; a session keeps its face.
pub proof fn a_session_keeps_its_face(bytes: Seq<u8>, byte: u8, session: Seq<char>)
    ensures
        byte_hash(Seq::<u8>::empty(), 256) == 0,
        byte_hash(bytes.push(byte), 256) == (31 * byte_hash(bytes, 256) + byte) % 256,
        bot_of(session) == bot_at(byte_hash(encode_utf8(session), 256) % 9),
{
    assert(bytes.push(byte).drop_last() =~= bytes);
}

/// An avatar's two drawings are of one face, the second with closed eyes.
pub proof fn an_avatar_blinks_with_its_own_face(session: &str, r: (BotImage, BotImage))
    requires
        call_ensures(avatar_for_session, (session,), r),
    ensures
        r.0.bot == r.1.bot,
        !r.0.blink && r.1.blink,
{
}

/// A badge is coloured by what the session needs: a send that failed, then one
/// that waits, then what the session does.
pub proof fn a_badge_shows_what_is_wrong_first(status: ChatIndicator, queued: bool, theme: Theme)
    ensures
        badge_tint(status, queued, true, theme) == (Tint { color: theme.danger, percent: 100 }),
        badge_tint(status, true, false, theme) == (Tint { color: theme.warning, percent: 100 }),
        badge_tint(ChatIndicator::Working, false, false, theme).color == theme.busy,
        badge_tint(ChatIndicator::AwaitingInput, false, false, theme).color == theme.warning,
        badge_tint(ChatIndicator::Errored, false, false, theme).color == theme.danger,
        badge_tint(ChatIndicator::Completed, false, false, theme).color == theme.success,
        badge_tint(ChatIndicator::Idle, false, false, theme) == (Tint {
            color: theme.text_muted,
            percent: 45,
        }),
{
}

/// Reduced motion stills an avatar altogether; else it bobs while it works,
/// shakes after an error, and wiggles while it is hovered.
pub proof fn reduced_motion_stills_an_avatar(
    status: ChatIndicator,
    hovered: bool,
    began: bool,
    reduced: bool,
    r: Animation,
)
    requires
        call_ensures(animation, (status, hovered, began, reduced), r),
    ensures
        reduced ==> r.body is Still && !r.blinks && !r.wiggles && !r.pulses,
        !reduced ==> (r.body is Bob <==> status is Working) && (r.body is Shake <==> status
            is Errored) && r.blinks,
        !reduced && status is Working ==> r.pulses,
        r.pulses ==> status is Working,
        r.wiggles <==> hovered && began && !reduced,
        r.badge <==> !(status is Idle),
{
}

/// A frame that changes nothing repaints nothing, and hovering begins once.
pub proof fn only_a_change_repaints(
    drawn: &mut Buddy,
    next: Buddy,
    resized: bool,
    r: BuddyChange,
)
    requires
        call_ensures(update_buddy, (drawn, next, resized), r),
    ensures
        *final(drawn) == next,
        *old(drawn) == next && !resized ==> !r.repaint && !r.hover_starts,
        *old(drawn) != next || resized ==> r.repaint,
        r.hover_starts <==> next.hovered && !old(drawn).hovered,
{
}

/// A tool call is coloured by what it does: reading and searching explore,
/// writing changes, spawning delegates, and everything else, thinking too, is
/// neutral.
pub proof fn a_call_is_coloured_by_what_it_does(call: ToolCall)
    ensures
        family_of(call, true) is Neutral,
        call.tool is ReadFile || call.tool is Search || call.tool is Glob || call.tool is WebFetch
            || call.tool is WebSearch ==> family_of(call, false) is Explore,
        call.tool is WriteFile || call.tool is EditFile || call.tool is ApplyPatch ==> family_of(
            call,
            false,
        ) is Change,
        (call.tool is Exec || call.tool is Todo || call.tool is Mcp || call.tool is Unknown)
            && call.spawn ==> family_of(call, false) is Delegate,
        (call.tool is Exec || call.tool is Todo || call.tool is Mcp) && !call.spawn ==> family_of(
            call,
            false,
        ) is Neutral,
        !call.spawn ==> (call.tool matches Tool::Unknown { name, .. } ==> (family_of(call, false)
            is Delegate <==> name@ == "Wait for agents"@)),
        family_of(call, false) is Explore ==> call.tool is ReadFile || call.tool is Search
            || call.tool is Glob || call.tool is WebFetch || call.tool is WebSearch,
{
}

/// The three hues of tools are told apart, and a neutral call has none.
pub proof fn tool_hues_are_told_apart(theme: Theme)
    ensures
        family_tint(ToolFamily::Neutral, theme) is None,
        family_tint(ToolFamily::Explore, theme) is Some,
        family_tint(ToolFamily::Change, theme) is Some,
        family_tint(ToolFamily::Delegate, theme) is Some,
        family_tint(ToolFamily::Explore, theme) != family_tint(ToolFamily::Change, theme),
        family_tint(ToolFamily::Explore, theme) != family_tint(ToolFamily::Delegate, theme),
        family_tint(ToolFamily::Change, theme) != family_tint(ToolFamily::Delegate, theme),
{
}

/// A name is the one of the first row of its id.
pub proof fn a_name_is_found_by_its_id(rows: Seq<Named>, id: Seq<char>)
    ensures
        name_of(rows, id) is None <==> (forall|i: int|
            0 <= i < rows.len() ==> (#[trigger] rows[i]).id@ != id),
        name_of(rows, id) matches Some(name) ==> exists|i: int|
            0 <= i < rows.len() && (#[trigger] rows[i]).id@ == id && rows[i].name@ == name,
{
    the_first_item_is_the_first(rows, is_named(id));
    let at = first_place(rows, is_named(id));
    if name_of(rows, id) is None {
        assert forall|i: int| 0 <= i < rows.len() implies (#[trigger] rows[i]).id@ != id by {
            assert(!is_named(id)(rows[i]));
        }
    } else {
        assert(rows[at].id@ == id);
    }
}

/// The context line names the project, the branch where there is one, and the
/// device exactly where the conversation lives on another whose name is known.
pub proof fn a_context_line_names_the_project(chat: ChatRow, rows: Rows)
    ensures
        chat.space_id is None ==> project_of(chat, rows.spaces@) == "~"@,
        chat.space_id matches Some(id) ==> project_of(chat, rows.spaces@) == (match name_of(
            rows.spaces@,
            id@,
        ) {
            Some(name) => name,
            None => "?"@,
        }),
        ({
            let project = project_of(chat, rows.spaces@);
            let here = rows.local_device_id.deep_view() == Some(chat.device_id@);
            let device = name_of(rows.devices@, chat.device_id@);
            let branch = match chat.branch {
                Some(branch) => trimmed(branch@),
                None => Seq::empty(),
            };
            &&& branch.len() == 0 && (here || device is None) ==> context_of(chat, rows) == project
            &&& branch.len() > 0 && (here || device is None) ==> context_of(chat, rows) == project
                + ":"@ + branch
            &&& branch.len() == 0 && !here && device is Some ==> context_of(chat, rows) == project
                + " · "@ + device->0
            &&& branch.len() > 0 && !here && device is Some ==> context_of(chat, rows) == project
                + ":"@ + branch + " · "@ + device->0
        }),
{
}

/// A header shows the state of its conversation: a send that was not delivered
/// fails it, one that waits queues it.
pub proof fn a_header_shows_its_sessions_state(session: Seq<char>, rows: Rows, chat: ChatRow)
    requires
        chat_of(rows.chats@, Some(session)) == Some(chat),
    ensures
        meta_of(Some(session), rows).context == Some(context_of(chat, rows)),
        chat.undelivered ==> meta_of(Some(session), rows).state is Failed,
        chat.queued && !chat.undelivered ==> meta_of(Some(session), rows).state is Queued,
        !chat.queued && !chat.undelivered && chat.status is Working ==> meta_of(
            Some(session),
            rows,
        ).state is Working,
        !chat.queued && !chat.undelivered && chat.status is AwaitingInput ==> meta_of(
            Some(session),
            rows,
        ).state is AwaitingInput,
{
}

/// A pane is marked by the harness of its conversation, else by the one picked
/// in its composer, else by what it is.
pub proof fn a_pane_is_marked_by_its_harness(
    chat: ChatRow,
    mode: PaneMode,
    provider: Option<Seq<char>>,
    picked: Option<Seq<char>>,
)
    ensures
        chat.harness matches Some(harness) ==> identity_of(Some(chat), mode, provider, picked)
            == Identity::Brand(harness@),
        chat.harness is None ==> identity_of(Some(chat), mode, provider, picked) == identity_of(
            None,
            mode,
            provider,
            picked,
        ),
        picked matches Some(harness) ==> identity_of(None, mode, provider, picked)
            == Identity::Brand(harness),
        identity_of(None, mode, provider, None) == Identity::Plain(Mark { mode, provider }),
{
}

/// A pane's title is its label, else its conversation's title in one line,
/// else what it is.
pub proof fn a_pane_title_says_what_it_is(
    session: Option<Seq<char>>,
    mode: PaneMode,
    label: Seq<char>,
    chats: Seq<ChatRow>,
)
    ensures
        title_of(session, mode, Some(label), chats) == label,
        chat_of(chats, session) matches Some(chat) && chat.title is Some ==> title_of(
            session,
            mode,
            None,
            chats,
        ) == one_line_of(chat_of(chats, session)->0.title->0@),
        chat_of(chats, session) is None && mode is Terminal ==> title_of(
            session,
            mode,
            None,
            chats,
        ) == "Terminal"@,
        chat_of(chats, session) is None && mode is Chat && session is Some ==> title_of(
            session,
            mode,
            None,
            chats,
        ) == "Session"@,
        mode is Chat ==> title_of(None, mode, None, chats) == "New session"@,
{
}

/// A chip shows the active pane of its tab.
pub proof fn a_chip_shows_its_active_pane(
    layout: Arrangement,
    chats: Seq<ChatRow>,
    view: ViewId,
    tab: TabId,
    pane: Pane,
    active: bool,
)
    requires
        first_item_of(layout, view, tab, pane.pane) == Some(pane),
    ensures
        ({
            let chip = chip_of(layout, chats, view, tab, pane.pane, active);
            &&& chip.tab == tab
            &&& chip.active == active
            &&& chip.label == title_of(pane.session, pane.mode, pane.label, chats)
            &&& chip.mark.mode == pane.mode && chip.mark.provider == pane.provider
        }),
{
}

/// The pane of that id in that tab.
pub open spec fn first_item_of(layout: Arrangement, view: ViewId, tab: TabId, pane: PaneId) -> Option<
    Pane,
> {
    crate::list::first_item(layout.panes, is_pane_of(view, tab, pane))
}

/// A strip shows a chip for each of its tabs that is there, in order, active
/// where it is the active one.
pub proof fn a_strip_shows_its_chips(
    layout: Arrangement,
    chats: Seq<ChatRow>,
    region: Region,
    order: Seq<TabId>,
)
    requires
        forall|i: int|
            0 <= i < order.len() ==> layout.tab(region.view, #[trigger] order[i]) is Some,
    ensures
        chips_of(layout, chats, region, order).len() == order.len(),
        forall|i: int|
            0 <= i < order.len() ==> {
                &&& (#[trigger] chips_of(layout, chats, region, order)[i]).tab == order[i]
                &&& chips_of(layout, chats, region, order)[i].active == (order[i]
                    == region.active_tab)
            },
    decreases order.len(),
{
    if order.len() > 0 {
        let front = order.drop_last();
        assert forall|i: int| 0 <= i < front.len() implies layout.tab(
            region.view,
            #[trigger] front[i],
        ) is Some by {
            assert(front[i] == order[i]);
        }
        a_strip_shows_its_chips(layout, chats, region, front);
        assert(layout.tab(region.view, order[order.len() - 1]) is Some);
    }
}

/// A pane in a frame is focused exactly where it is the active one, and keeps
/// clear of the window's controls exactly in the corner.
pub proof fn a_framed_pane_shows_itself(
    pane: Pane,
    layout: Arrangement,
    rows: Rows,
    picks: Picks,
    corner: Option<PaneId>,
)
    ensures
        ({
            let frame = frame_of(pane, layout, rows, picks, corner);
            &&& frame.pane == pane.pane && frame.mode == pane.mode
            &&& frame.title == title_of(pane.session, pane.mode, pane.label, rows.chats@)
            &&& frame.has_session == (pane.session is Some)
            &&& frame.focused <==> layout.active_pane() == Some(pane.pane)
            &&& frame.leads <==> corner == Some(pane.pane)
            &&& frame.meta == meta_of(pane.session, rows)
            &&& pane.session is None && picks.of(pane.pane) is None ==> frame.mark
                == Identity::Plain(Mark { mode: pane.mode, provider: pane.provider })
            &&& pane.session is None ==> (picks.of(pane.pane) matches Some(harness) ==> frame.mark
                == Identity::Brand(harness))
        }),
{
}

/// A view's frame shows the panes of its active tab and no others.
pub proof fn a_framed_view_shows_its_active_tab(
    panes: Seq<Pane>,
    view: ViewId,
    tab: TabId,
    layout: Arrangement,
    rows: Rows,
    picks: Picks,
    corner: Option<PaneId>,
)
    ensures
        frames_of(panes, view, tab, layout, rows, picks, corner).map_values(
            |frame: crate::pane_header::PaneFrame| frame.pane,
        ) == panes.filter(|pane: Pane| pane.view == view && pane.tab == tab).map_values(
            |pane: Pane| pane.pane,
        ),
    decreases panes.len(),
{
    reveal(Seq::filter);
    let lies = |pane: Pane| pane.view == view && pane.tab == tab;
    let id = |pane: Pane| pane.pane;
    let shown = |frame: crate::pane_header::PaneFrame| frame.pane;
    let frames = frames_of(panes, view, tab, layout, rows, picks, corner);
    if panes.len() > 0 {
        let front = panes.drop_last();
        a_framed_view_shows_its_active_tab(front, view, tab, layout, rows, picks, corner);
        let before = frames_of(front, view, tab, layout, rows, picks, corner);
        if lies(panes.last()) {
            assert(frames.map_values(shown) =~= before.map_values(shown).push(panes.last().pane));
            assert(front.filter(lies).push(panes.last()).map_values(id) =~= front.filter(
                lies,
            ).map_values(id).push(panes.last().pane));
        }
    }
    assert(frames.map_values(shown) =~= panes.filter(lies).map_values(id));
}

/// A view can be closed exactly where there is another, leads exactly where it
/// is the first, and falls back to one leaf exactly where its tab is gone.
pub proof fn a_view_frame_shows_its_view(
    region: Region,
    layout: Arrangement,
    rows: Rows,
    picks: Picks,
)
    ensures
        ({
            let frame = view_frame(region, layout, rows, picks);
            &&& frame.view == region.view && frame.active_tab == region.active_tab
            &&& frame.closable <==> layout.views.len() > 1
            &&& frame.leads <==> region.view == layout.first_view
            &&& frame.fallback is Some <==> layout.tab(region.view, region.active_tab) is None
        }),
{
}

/// Each chat pane with a session has its badge, and no other pane has one.
pub proof fn a_chat_pane_has_its_badge(panes: Seq<Pane>, chats: Seq<ChatRow>, badge: BadgeSlot)
    ensures
        badges_of(panes, chats).contains(badge) <==> (exists|i: int|
            {
                &&& 0 <= i < panes.len()
                &&& (#[trigger] panes[i]).mode is Chat
                &&& panes[i].session == Some(badge.chat_id)
                &&& panes[i].pane == badge.pane
            }) && badge.known == (chat_of(chats, Some(badge.chat_id)) is Some),
    decreases panes.len(),
{
    let all = badges_of(panes, chats);
    if panes.len() > 0 {
        let front = panes.drop_last();
        let before = badges_of(front, chats);
        a_chat_pane_has_its_badge(front, chats, badge);
        assert forall|i: int| 0 <= i < front.len() implies front[i] == #[trigger] panes[i] by {}
        let known = badge.known == (chat_of(chats, Some(badge.chat_id)) is Some);
        if before.contains(badge) {
            assert(all[before.index_of(badge)] == badge);
            let i = choose|i: int|
                {
                    &&& 0 <= i < front.len()
                    &&& (#[trigger] front[i]).mode is Chat
                    &&& front[i].session == Some(badge.chat_id)
                    &&& front[i].pane == badge.pane
                };
            assert(panes[i] == front[i]);
        }
        if all.contains(badge) && !before.contains(badge) {
            let k = all.index_of(badge);
            if k < before.len() {
                assert(before[k] == badge);
            }
            assert(panes[panes.len() - 1] == panes.last());
        }
        if known && exists|i: int|
            {
                &&& 0 <= i < panes.len()
                &&& (#[trigger] panes[i]).mode is Chat
                &&& panes[i].session == Some(badge.chat_id)
                &&& panes[i].pane == badge.pane
            } {
            let i = choose|i: int|
                {
                    &&& 0 <= i < panes.len()
                    &&& (#[trigger] panes[i]).mode is Chat
                    &&& panes[i].session == Some(badge.chat_id)
                    &&& panes[i].pane == badge.pane
                };
            if i < front.len() {
                assert(front[i] == panes[i]);
            } else {
                assert(all[before.len() as int] == badge);
            }
        }
    }
}

/// The tray counts what is settled of all, shows a pill for each agent that
/// fits, in order, and says how many are left out.
pub proof fn a_tray_says_what_it_leaves_out(
    chat: &str,
    summaries: &Vec<SubagentSummary>,
    width: u32,
    panel_open: bool,
    seen: &Vec<String>,
    now: i64,
    theme: &Theme,
    r: TrayRow,
    i: int,
)
    requires
        call_ensures(
            agents_tray_row,
            (chat, summaries, width, panel_open, seen, now, theme),
            r,
        ),
    ensures
        r.pills@.len() == summaries@.len() <==> r.more is None,
        r.pills@.len() <= summaries@.len(),
        r.more matches Some(text) ==> text@ == "+"@ + decimal_text(
            (summaries@.len() - r.pills@.len()) as nat,
        ),
        r.chevron_down <==> panel_open,
        0 <= i < r.pills@.len() ==> r.pills@[i].deep_view().title
            == summaries@[i].deep_view().title,
        r.counter@ == decimal_text(settled_count(summaries.deep_view())) + "/"@ + decimal_text(
            summaries@.len(),
        ),
{
    the_tray_is_packed_to_the_first_misfit(summaries.deep_view(), width as int);
}

/// A chat card lists the first agents that run and says how many more do.
pub proof fn a_chat_card_says_how_many_more_run(
    summaries: &Vec<SubagentSummary>,
    now: i64,
    theme: &Theme,
    r: SidebarRows,
    i: int,
)
    requires
        call_ensures(sidebar_children, (summaries, now, theme), r),
    ensures
        r.rows@.len() <= 3,
        r.rows@.len() <= running_of(summaries.deep_view()).len(),
        r.more is Some <==> r.rows@.len() < running_of(summaries.deep_view()).len(),
        r.more matches Some(text) ==> text@ == "+"@ + decimal_text(
            (running_of(summaries.deep_view()).len() - r.rows@.len()) as nat,
        ) + " more"@,
        r.more is Some ==> r.rows@.len() == 3,
        0 <= i < r.rows@.len() ==> r.rows@[i].deep_view().title == running_of(
            summaries.deep_view(),
        )[i].title,
{
}

/// The panel has something to show exactly where there are agents.
pub proof fn an_empty_panel_shows_nothing(
    summaries: &Vec<SubagentSummary>,
    seen: &Vec<String>,
    now: i64,
    theme: &Theme,
    r: Option<Vec<PanelRow>>,
)
    requires
        call_ensures(agents_panel_body, (summaries, seen, now, theme), r),
    ensures
        r is None <==> summaries@.len() == 0,
{
}

/// A single pane's header shows the selected conversation, and a new session
/// where there is none.
pub proof fn a_single_header_shows_the_selection(
    focused: Option<PaneId>,
    selected: Option<&ChatRow>,
    rows: &Rows,
    harness: &Option<String>,
    r: Option<PrimaryHeader>,
)
    requires
        call_ensures(render_primary_pane_header, (focused, selected, rows, harness), r),
    ensures
        r is Some <==> focused is Some,
        r matches Some(header) ==> Some(header.pane) == focused,
        r is Some && selected is None ==> r->0.title@ == "New session"@ && r->0.chat_id is None,
        r is Some && selected is Some ==> r->0.chat_id.deep_view() == Some(selected->0.id@),
        r is Some && selected is Some && selected->0.title is Some ==> r->0.title@ == one_line_of(
            selected->0.title->0@,
        ),
        r is Some && selected is Some && selected->0.title is None ==> r->0.title@
            == "New session"@,
{
}

/// A snapshot shows every view, in order.
pub proof fn a_snapshot_shows_every_view(
    layout: &Layout,
    rows: &Rows,
    picks: &Picks,
    r: Vec<ViewSnap>,
    i: int,
)
    requires
        call_ensures(workspace_snapshot, (layout, rows, picks), r),
    ensures
        r@.len() == layout@.views.len(),
        0 <= i < r@.len() ==> r@[i].deep_view().view == layout@.views[i].view,
{
    let frames = r.deep_view();
    assert(frames.len() == layout@.views.len());
    if 0 <= i < r@.len() {
        assert(frames[i] == view_frame(layout@.views[i], layout@, *rows, *picks));
    }
}

/// A session needs its user where it failed or waits for them, and runs where
/// it works or its turn is queued.
pub proof fn a_session_needs_its_user(state: SessionState, a: bool, b: bool)
    requires
        call_ensures(SessionState::needs_you, (state,), a),
        call_ensures(SessionState::running, (state,), b),
    ensures
        a <==> state is Failed || state is AwaitingInput,
        b <==> state is Working || state is Queued,
        !(a && b),
{
}

/// Added and removed lines are told apart in either theme.
pub proof fn diff_colours_are_told_apart(theme: &Theme, r: (Tint, Tint))
    requires
        call_ensures(diff_colors, (theme,), r),
    ensures
        r.0 != r.1,
        r.0.color == 0x6ee7b7 || r.0.color == 0x15803d,
        r.1.color == 0xfca5a5 || r.1.color == 0xb91c1c,
{
}

/// A plan exists exactly where it has steps, and is complete exactly where none
/// is open.
pub proof fn a_plan_has_steps(
    items: &Vec<TodoItem>,
    r: Option<PlanProgress>,
    complete: bool,
)
    requires
        call_ensures(plan_progress_from_items, (items,), r),
        r is Some ==> call_ensures(PlanProgress::is_complete, (&r->0,), complete),
    ensures
        r is Some <==> items@.len() > 0,
        r matches Some(progress) ==> progress.total == items@.len() && progress.done == done_count(
            items@,
        ),
        r is Some ==> (complete <==> first_open(items@) is None),
{
}

/// A view whose active tab is gone draws the active pane of its first tab.
pub proof fn a_lost_tab_falls_back_to_the_first(
    region: Region,
    layout: Arrangement,
    rows: Rows,
    picks: Picks,
    at: int,
)
    requires
        layout.tab(region.view, region.active_tab) is None,
    ensures
        0 <= at < layout.tabs.len() && layout.tabs[at].view == region.view && (forall|i: int|
            0 <= i < at ==> (#[trigger] layout.tabs[i]).view != region.view) ==> view_frame(
            region,
            layout,
            rows,
            picks,
        ).fallback == Some(layout.tabs[at].active_pane),
        (forall|i: int| 0 <= i < layout.tabs.len() ==> (#[trigger] layout.tabs[i]).view
            != region.view) ==> view_frame(region, layout, rows, picks).fallback == Some(PaneId(0)),
        view_frame(region, layout, rows, picks).panes.len() == 0,
{
    let is = is_tab_of(region.view);
    the_first_item_is_the_first(layout.tabs, is);
    let first = first_place(layout.tabs, is);
    if 0 <= at < layout.tabs.len() && layout.tabs[at].view == region.view && (forall|i: int|
        0 <= i < at ==> (#[trigger] layout.tabs[i]).view != region.view) {
        assert(is(layout.tabs[at]));
        assert(first == at) by {
            if first < at {
                assert(is(layout.tabs[first]));
            }
        }
    }
    if first < layout.tabs.len() {
        assert(layout.tabs[first].view == region.view);
    }
}

/// A pane's pick is the first listed for it.
pub proof fn a_pick_is_the_panes_own(picks: Picks, pane: PaneId, at: int)
    ensures
        0 <= at < picks.picks@.len() && picks.picks@[at].0 == pane && (forall|i: int|
            0 <= i < at ==> (#[trigger] picks.picks@[i]).0 != pane) ==> picks.of(pane)
            == picks.picks@[at].1.deep_view(),
        (forall|i: int| 0 <= i < picks.picks@.len() ==> (#[trigger] picks.picks@[i]).0 != pane)
            ==> picks.of(pane) is None,
{
    let is = is_pick(pane);
    the_first_item_is_the_first(picks.picks@, is);
    let first = first_place(picks.picks@, is);
    if 0 <= at < picks.picks@.len() && picks.picks@[at].0 == pane && (forall|i: int|
        0 <= i < at ==> (#[trigger] picks.picks@[i]).0 != pane) {
        assert(is(picks.picks@[at]));
        assert(first == at) by {
            if first < at {
                assert(is(picks.picks@[first]));
            }
        }
    }
    if first < picks.picks@.len() {
        assert(picks.picks@[first].0 == pane);
    }
}

/// The corner of the window is the first pane of the first view's tab, and no
/// other view has it.
pub proof fn only_the_first_view_has_the_corner(
    region: Region,
    layout: Arrangement,
    rows: Rows,
    picks: Picks,
    i: int,
)
    requires
        layout.tab(region.view, region.active_tab) is Some,
        0 <= i < view_frame(region, layout, rows, picks).panes.len(),
    ensures
        view_frame(region, layout, rows, picks).panes[i].leads <==> region.view
            == layout.first_view && view_frame(region, layout, rows, picks).panes[i].pane
            == layout.tab(region.view, region.active_tab)->0.first_pane,
{
    let tab = layout.tab(region.view, region.active_tab)->0;
    let corner = if region.view == layout.first_view {
        Some(tab.first_pane)
    } else {
        None
    };
    frames_lead_in_the_corner(
        layout.panes,
        region.view,
        region.active_tab,
        layout,
        rows,
        picks,
        corner,
        i,
    );
}

proof fn frames_lead_in_the_corner(
    panes: Seq<Pane>,
    view: ViewId,
    tab: TabId,
    layout: Arrangement,
    rows: Rows,
    picks: Picks,
    corner: Option<PaneId>,
    i: int,
)
    requires
        0 <= i < frames_of(panes, view, tab, layout, rows, picks, corner).len(),
    ensures
        ({
            let frame = frames_of(panes, view, tab, layout, rows, picks, corner)[i];
            frame.leads <==> corner == Some(frame.pane)
        }),
    decreases panes.len(),
{
    let front = panes.drop_last();
    if i < frames_of(front, view, tab, layout, rows, picks, corner).len() {
        frames_lead_in_the_corner(front, view, tab, layout, rows, picks, corner, i);
    }
}

} // verus!
