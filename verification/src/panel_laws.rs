//! What holds of the terminal panel's operations: opening and closing a
//! provider's view, frames of a stream, input, sizes, and the strip of tabs.
use vstd::prelude::*;
use vstd::utf8::encode_utf8;
use crate::codec::{frame_bytes, standard_decoded, unpadded_decoded};
use crate::composition::Span;
use crate::terminal_laws::a_tab_is_found_under_its_key;
use crate::terminal_panel::{
    key_place, AppView, InputCoalescer, OpenReply, Panel, QueueEffect, SessionViewStatus,
    StatusEffect, StreamReply, TerminalEvent, TerminalPanel, TerminalTab, ViewStatus,
};
use crate::terminal_tabs::{exit_text, moved};
use crate::text::signed_text;

verus! {

/// A flush is scheduled exactly once for all that is typed before it runs, and
/// hands all of it out.
pub proof fn typed_bytes_go_out_together(
    first: &mut InputCoalescer,
    second: &mut InputCoalescer,
    taken: &mut InputCoalescer,
    a: &[u8],
    b: &[u8],
    starts: bool,
    again: bool,
    r: Vec<u8>,
)
    requires
        old(first).bytes@.len() == 0,
        a@.len() > 0,
        call_ensures(InputCoalescer::push, (first, a), starts),
        *final(first) == *old(second),
        call_ensures(InputCoalescer::push, (second, b), again),
        *final(second) == *old(taken),
        call_ensures(InputCoalescer::take, (taken,), r),
    ensures
        starts && !again,
        r@ == a@ + b@,
        final(taken).bytes@.len() == 0,
{
    assert(r@ =~= a@ + b@);
}

/// Input waits for its terminal and is never written after an exit.
pub proof fn input_waits_for_its_terminal(tab: &mut TerminalTab, r: Option<(String, Vec<u8>)>)
    requires
        call_ensures(TerminalTab::take_input, (tab,), r),
    ensures
        r is Some <==> old(tab).terminal_id is Some && old(tab).exited is None && old(tab).coalescer.bytes@.len() > 0,
        r matches Some(write) ==> write.0@ == old(tab).terminal_id->0@ && write.1@ == old(tab).coalescer.bytes@ && final(tab).deep_view().queued.len() == 0,
        final(tab).deep_view().terminal_id == old(tab).deep_view().terminal_id,
        final(tab).deep_view().exited == old(tab).deep_view().exited,
{
}

/// A native session is handed over only while it is known to be idle.
pub proof fn only_an_idle_session_is_handed_over(panel: &TerminalPanel, r: Option<&'static str>)
    requires
        call_ensures(TerminalPanel::handoff_unavailable, (panel,), r),
    ensures
        r is None <==> panel@.activity == Some("idle"@),
        panel@.activity == Some("busy"@) || panel@.activity == Some("permission"@) ==> r is Some
            && r->0@ == "Session is busy"@,
        panel@.activity is None ==> r is Some && r->0@ == "Native session state is not verified"@,
{
    reveal_strlit("idle");
    reveal_strlit("busy");
    reveal_strlit("permission");
    assert("busy"@.len() == 4 && "idle"@.len() == 4 && "permission"@.len() == 10);
    assert("busy"@[0] == 'b' && "idle"@[0] == 'i');
}

/// Activity is reported as changed exactly where it did.
pub proof fn changed_activity_is_reported(
    panel: &mut TerminalPanel,
    activity: Option<String>,
    r: bool,
)
    requires
        call_ensures(TerminalPanel::note_native_activity, (panel, activity), r),
    ensures
        final(panel)@.activity == activity.deep_view(),
        r <==> old(panel)@.activity != final(panel)@.activity,
        final(panel)@.chats == old(panel)@.chats && final(panel)@.status == old(panel)@.status,
{
}

/// Only a transition is told of, and a session is watched once.
pub proof fn only_a_transition_is_told_of(
    panel: &mut TerminalPanel,
    status: SessionViewStatus,
    engine: bool,
    r: StatusEffect,
)
    requires
        call_ensures(TerminalPanel::set_session_status, (panel, status, engine), r),
    ensures
        final(panel)@.status == status@,
        r.emitted <==> old(panel)@.status != status@,
        old(panel)@.status == status@ ==> final(panel)@ == old(panel)@ && !r.watch,
        r.watch ==> status is Ready && !old(panel)@.watching && engine && old(panel)@.session_chat is Some,
        r.emitted && status is Ready && engine && old(panel)@.session_chat is Some && !old(panel)@.watching ==> r.watch,
        r.emitted && status is Idle ==> !final(panel)@.watching && final(panel)@.activity is None,
        r.emitted && !(status is Opening || status is Ready) ==> final(panel)@.preedit.text.len()
            == 0,
        final(panel)@.chats == old(panel)@.chats,
{
}

/// A terminal opens under a key of its own, where an engine is connected and
/// the panel is no provider's view.
pub proof fn a_terminal_opens_under_its_own_key(
    panel: &mut TerminalPanel,
    chat: String,
    engine: bool,
    r: Option<u64>,
)
    requires
        call_ensures(TerminalPanel::open_tab, (panel, chat, engine), r),
        old(panel).tab_seq < u64::MAX,
    ensures
        r is Some <==> engine && !old(panel)@.session_view,
        r matches Some(key) ==> key == old(panel)@.tab_seq + 1 && final(panel)@.tab_seq == key,
        r is None ==> final(panel)@ == old(panel)@,
        r is Some ==> {
            let tabs = final(panel)@.chats[chat@].tabs;
            &&& final(panel)@.chats.dom().contains(chat@)
            &&& tabs.len() > 0 && tabs.last().key == r->0
            &&& final(panel)@.chats[chat@].active == tabs.len() - 1
            &&& tabs.last().terminal_id is None && tabs.last().exited is None
        },
{
}

/// A provider's view opens on its chat with one fresh terminal, and shares the
/// request that is pending.
pub proof fn a_view_opens_once(panel: &mut TerminalPanel, app: &AppView, r: OpenReply)
    requires
        call_ensures(TerminalPanel::open_session_view, (panel, app), r),
        old(panel).tab_seq < u64::MAX,
    ensures
        ({
            let before = old(panel)@;
            let after = final(panel)@;
            let pending = (before.status is Opening || before.status is Ready)
                && before.session_open;
            let chat = if before.session_chat is Some {
                before.session_chat
            } else {
                app@.selected_chat
            };
            &&& !before.session_view ==> r is Refused
            &&& before.session_view && before.status is Closing ==> r is Refused && after == before
            &&& before.session_view && pending ==> r is Shared && after == before
            &&& r is Shared ==> pending
            &&& before.session_view && !(before.status is Closing) && !pending && (chat is None
                || !app@.engine) ==> r is Refused && after.status is Failed
            &&& before.session_view && !(before.status is Closing) && !pending && chat is Some
                && app@.engine ==> {
                &&& r matches OpenReply::Opening { chat: named, key } && named@ == chat->0 && key
                    == after.tab_seq
                &&& after.status is Opening && after.open && after.session_open
                    && !after.session_close
                &&& after.session_chat == chat
                &&& after.chats[chat->0].tabs.len() == 1
                &&& after.chats[chat->0].tabs[0].key == after.tab_seq
                &&& after.chats[chat->0].active == 0
            }
        }),
{
}

/// Why a provider's view did not open is said, and where it could, the view
/// shows it.
pub proof fn a_view_that_does_not_open_says_why(
    panel: &mut TerminalPanel,
    app: &AppView,
    r: OpenReply,
)
    requires
        call_ensures(TerminalPanel::open_session_view, (panel, app), r),
        r is Refused,
    ensures
        ({
            let before = old(panel)@;
            let why = r->Refused_0@;
            &&& !before.session_view ==> why == "Not a session terminal view"@
            &&& before.session_view && before.status is Closing ==> why
                == "Session terminal is closing"@
            &&& before.session_view && !(before.status is Closing) && before.session_chat is None
                && app@.selected_chat is None ==> why
                == "Select a chat to open its session terminal"@
            &&& before.session_view && !(before.status is Closing) && (before.session_chat is Some
                || app@.selected_chat is Some) ==> why == "Engine is not connected"@
            &&& final(panel)@.status matches ViewStatus::Failed(error) ==> error == why || final(panel)@ == before
        }),
{
}

/// A released view is idle and forgets its terminal; a refused release gives
/// input back only where the session is still the provider's.
pub proof fn a_refused_release_may_give_input_back(
    panel: &mut TerminalPanel,
    chat: &str,
    result: Result<(), String>,
    still_cli: bool,
    engine: bool,
    nothing: (),
)
    requires
        call_ensures(
            TerminalPanel::session_view_closed,
            (panel, chat, result, still_cli, engine),
            nothing,
        ),
    ensures
        result is Ok ==> final(panel)@.status is Idle && !final(panel)@.open && !final(panel)@.session_open && final(panel)@.session_chat is None && !final(panel)@.chats.dom().contains(chat@),
        result is Err && still_cli ==> final(panel)@.status is Ready,
        result matches Err(error) ==> (!still_cli ==> final(panel)@.status == ViewStatus::Failed(
            error@,
        )),
        result is Err ==> final(panel)@.chats == old(panel)@.chats && final(panel)@.session_chat
            == old(panel)@.session_chat,
{
}

/// Closing the drawer keeps every terminal; opening it gives a chat without
/// terminals its first, unless the strip is the shell's.
pub proof fn closing_the_drawer_keeps_terminals(
    panel: &mut TerminalPanel,
    open: bool,
    app: &AppView,
    r: Option<u64>,
    chat: Seq<char>,
)
    requires
        call_ensures(TerminalPanel::set_open, (panel, open, app), r),
        old(panel).tab_seq < u64::MAX,
    ensures
        final(panel)@.open == open,
        !open || old(panel)@.embedded ==> r is None && final(panel)@.chats == old(panel)@.chats,
        !open ==> final(panel)@.preedit.text.len() == 0,
        old(panel)@.chats.dom().contains(chat) && old(panel)@.chats[chat].tabs.len() > 0 ==> final(panel)@.chats[chat] == old(panel)@.chats[chat],
        open && !old(panel)@.embedded && !old(panel)@.session_view && app@.engine
            && app@.selected_chat == Some(chat) && !old(panel)@.chats.dom().contains(chat) ==> r
            is Some && final(panel)@.chats[chat].tabs.len() == 1,
{
}

/// A summary tells each tab's key, label and whether it exited, in order.
pub proof fn summaries_tell_of_their_tabs(
    panel: &TerminalPanel,
    app: &AppView,
    r: Vec<(u64, String, bool)>,
    chat: Seq<char>,
    i: int,
)
    requires
        call_ensures(TerminalPanel::tab_summaries, (panel, app), r),
        panel@.chat(app@) == Some(chat),
        panel@.chats.dom().contains(chat),
        0 <= i < panel@.chats[chat].tabs.len(),
    ensures
        r@.len() == panel@.chats[chat].tabs.len(),
        r@[i].0 == panel@.chats[chat].tabs[i].key,
        r@[i].1@ == panel@.chats[chat].tabs[i].label(),
        r@[i].2 <==> panel@.chats[chat].tabs[i].exited is Some,
{
}

/// Selecting a tab shows it; only a change drops what is being composed.
pub proof fn a_selected_tab_shows(
    panel: &mut TerminalPanel,
    chat: &str,
    ix: usize,
    r: bool,
    other: Seq<char>,
)
    requires
        call_ensures(TerminalPanel::select_tab, (panel, chat, ix), r),
    ensures
        !r ==> final(panel)@ == old(panel)@,
        old(panel)@.chats.dom().contains(chat@) && ix < old(panel)@.chats[chat@].tabs.len()
            ==> final(panel)@.chats[chat@].active == ix && final(panel)@.chats[chat@].tabs == old(panel)@.chats[chat@].tabs,
        r ==> final(panel)@.preedit.text.len() == 0,
        r ==> old(panel)@.chats[chat@].active != ix && ix < old(panel)@.chats[chat@].tabs.len(),
        other != chat@ ==> final(panel)@.chats[other] == old(panel)@.chats[other],
{
}

/// A key shows its tab, and a key that no tab has changes nothing.
pub proof fn a_key_shows_its_tab(
    panel: &mut TerminalPanel,
    key: u64,
    app: &AppView,
    r: bool,
    chat: Seq<char>,
    at: int,
)
    requires
        call_ensures(TerminalPanel::select_tab_by_key, (panel, key, app), r),
        old(panel)@.chat(app@) == Some(chat),
        old(panel)@.chats.dom().contains(chat),
        0 <= at <= old(panel)@.chats[chat].tabs.len(),
        forall|i: int| 0 <= i < at ==> (#[trigger] old(panel)@.chats[chat].tabs[i]).key != key,
        at < old(panel)@.chats[chat].tabs.len() ==> old(panel)@.chats[chat].tabs[at].key == key,
    ensures
        at < old(panel)@.chats[chat].tabs.len() ==> final(panel)@.chats[chat].active == at,
        at == old(panel)@.chats[chat].tabs.len() ==> !r && final(panel)@ == old(panel)@,
        final(panel)@.chats[chat].tabs == old(panel)@.chats[chat].tabs,
{
    let tabs = old(panel)@.chats[chat].tabs;
    a_tab_is_found_under_its_key(tabs, key);
    assert(key_place(tabs, key) == at) by {
        if key_place(tabs, key) < at {
            assert(tabs[key_place(tabs, key)].key == key);
        }
    }
}

/// Another selection ends a drag and a composition; the same one ends neither.
pub proof fn another_selection_ends_a_drag(panel: &mut TerminalPanel, app: &AppView, r: bool)
    requires
        call_ensures(TerminalPanel::on_state_changed, (panel, app), r),
        old(panel).tab_seq < u64::MAX,
    ensures
        r <==> old(panel)@.last_selected != app@.selected_chat,
        final(panel)@.last_selected == app@.selected_chat,
        r ==> final(panel)@.drag is None && final(panel)@.preedit.text.len() == 0,
        !r && (!old(panel)@.open || old(panel)@.embedded) ==> final(panel)@ == old(panel)@,
        final(panel)@.open == old(panel)@.open,
        !r ==> final(panel)@.drag == old(panel)@.drag,
{
}

/// A reorder moves one tab of one chat, and the tab that showed still shows.
pub proof fn a_reorder_moves_one_tab(
    panel: &mut TerminalPanel,
    chat: &str,
    from: usize,
    to: usize,
    nothing: (),
    other: Seq<char>,
)
    requires
        call_ensures(TerminalPanel::commit_reorder, (panel, chat, from, to), nothing),
    ensures
        final(panel)@.drag is None,
        old(panel)@.chats.dom().contains(chat@) ==> final(panel)@.chats[chat@].tabs == moved(
            old(panel)@.chats[chat@].tabs,
            from as int,
            to as int,
        ),
        other != chat@ ==> final(panel)@.chats[other] == old(panel)@.chats[other],
{
}

/// A tab dropped on its own strip lands where it was dragged to; on another
/// strip nothing moves. Either way the drag is over.
pub proof fn a_tab_lands_on_its_own_strip(
    panel: &mut TerminalPanel,
    strip: &str,
    dragged: &str,
    from: usize,
    nothing: (),
)
    requires
        call_ensures(TerminalPanel::drop_tab, (panel, strip, dragged, from), nothing),
    ensures
        final(panel)@.drag is None,
        strip@ != dragged@ ==> final(panel)@.chats == old(panel)@.chats,
        strip@ == dragged@ && old(panel)@.chats.dom().contains(strip@) && old(panel).drag is Some
            ==> final(panel)@.chats[strip@].tabs == moved(
            old(panel)@.chats[strip@].tabs,
            from as int,
            old(panel).drag->0.over as int,
        ),
        strip@ == dragged@ && old(panel)@.chats.dom().contains(strip@) && old(panel).drag is None
            ==> final(panel)@.chats[strip@].tabs == moved(
            old(panel)@.chats[strip@].tabs,
            from as int,
            from as int,
        ),
{
}

/// A tab of another chat is not followed over a strip; one of its own is.
pub proof fn only_its_own_strip_follows_a_tab(
    panel: &mut TerminalPanel,
    strip: &str,
    dragged: &str,
    from: usize,
    over: usize,
    r: bool,
)
    requires
        call_ensures(TerminalPanel::drag_moved, (panel, strip, dragged, from, over), r),
    ensures
        strip@ != dragged@ ==> !r && final(panel)@ == old(panel)@,
        strip@ == dragged@ ==> final(panel)@.drag is Some && final(panel)@.drag->0.over == over,
        strip@ == dragged@ ==> (r <==> old(panel).drag is None || old(panel).drag->0.over != over),
        final(panel)@.chats == old(panel)@.chats,
{
}

/// A terminal that did not open counts as exited and says why in red; a view
/// that was opening fails with it.
pub proof fn a_terminal_that_did_not_open_has_exited(
    panel: &mut TerminalPanel,
    chat: &str,
    key: u64,
    error: String,
    engine: bool,
    r: Option<Vec<u8>>,
)
    requires
        call_ensures(TerminalPanel::terminal_open_failed, (panel, chat, key, error, engine), r),
    ensures
        r is Some <==> old(panel)@.tab(chat@, key) is Some,
        r matches Some(feed) ==> feed@ == encode_utf8(
            "\x1b[31mfailed to open terminal: "@ + error@ + "\x1b[0m\r\n"@,
        ),
        old(panel)@.session_view && old(panel)@.status is Opening ==> final(panel)@.status
            == ViewStatus::Failed(error@),
        !(old(panel)@.session_view && old(panel)@.status is Opening) ==> final(panel)@.status
            == old(panel)@.status,
        old(panel)@.tab(chat@, key) matches Some(tab) ==> {
            let at = old(panel)@.chats[chat@].place(key);
            &&& final(panel)@.chats[chat@].tabs[at].exited == Some(-1i32)
            &&& final(panel)@.chats[chat@].tabs[at].terminal_id == tab.terminal_id
            &&& final(panel)@.chats[chat@].tabs[at].key == tab.key
        },
{
    if old(panel)@.tab(chat@, key) is Some {
        a_found_tab_is_listed(old(panel)@, chat@, key);
    }
}

/// A tab that is found stands in its chat's list.
proof fn a_found_tab_is_listed(panel: Panel, chat: Seq<char>, key: u64)
    requires
        panel.tab(chat, key) is Some,
    ensures
        0 <= panel.chats[chat].place(key) < panel.chats[chat].tabs.len(),
        panel.tab(chat, key) == Some(panel.chats[chat].tabs[panel.chats[chat].place(key)]),
{
    a_tab_is_found_under_its_key(panel.chats[chat].tabs, key);
}

/// A data frame feeds its bytes to the emulator and goes on; the frame's number
/// is remembered.
pub proof fn a_data_frame_is_fed(
    panel: &mut TerminalPanel,
    chat: &str,
    key: u64,
    seq: u64,
    data: String,
    engine: bool,
    r: StreamReply,
)
    requires
        call_ensures(
            TerminalPanel::apply_stream_event,
            (panel, chat, key, TerminalEvent::Data { seq, data }, engine),
            r,
        ),
        old(panel)@.tab(chat@, key) is Some,
    ensures
        !r.stop,
        r.feed@ == frame_bytes(standard_decoded(data@), unpadded_decoded(data@)),
        ({
            let at = old(panel)@.chats[chat@].place(key);
            let was = old(panel)@.chats[chat@].tabs[at];
            let is = final(panel)@.chats[chat@].tabs[at];
            &&& is.last_seq == seq
            &&& is.exited == was.exited && is.queued == was.queued && is.terminal_id
                == was.terminal_id
        }),
        final(panel)@.status == old(panel)@.status,
{
    a_found_tab_is_listed(old(panel)@, chat@, key);
}

/// An exit ends the stream and is noted with its code; it fails a provider's
/// view that is not closing, and that view's unsent input is dropped.
pub proof fn an_exit_is_noted(
    panel: &mut TerminalPanel,
    chat: &str,
    key: u64,
    seq: u64,
    code: i32,
    engine: bool,
    r: StreamReply,
)
    requires
        call_ensures(
            TerminalPanel::apply_stream_event,
            (panel, chat, key, TerminalEvent::Exit { seq, exit_code: code }, engine),
            r,
        ),
        old(panel)@.tab(chat@, key) is Some,
    ensures
        r.stop,
        r.feed@ == encode_utf8(exit_text(code as int)),
        ({
            let at = old(panel)@.chats[chat@].place(key);
            let was = old(panel)@.chats[chat@].tabs[at];
            let is = final(panel)@.chats[chat@].tabs[at];
            &&& is.exited == Some(code) && is.last_seq == seq
            &&& old(panel)@.session_view ==> is.queued.len() == 0
            &&& !old(panel)@.session_view ==> is.queued == was.queued
        }),
        old(panel)@.session_view && !(old(panel)@.status is Closing) ==> final(panel)@.status
            == ViewStatus::Failed(
            "Session terminal exited with code "@ + signed_text(code as int)
                + ". Close it to restore history."@,
        ),
        !old(panel)@.session_view || old(panel)@.status is Closing ==> final(panel)@.status == old(panel)@.status,
{
    a_found_tab_is_listed(old(panel)@, chat@, key);
}

/// A frame for a tab that is gone stops its stream and changes nothing.
pub proof fn a_frame_for_no_tab_stops_the_stream(
    panel: &mut TerminalPanel,
    chat: &str,
    key: u64,
    event: TerminalEvent,
    engine: bool,
    r: StreamReply,
)
    requires
        call_ensures(TerminalPanel::apply_stream_event, (panel, chat, key, event, engine), r),
        old(panel)@.tab(chat@, key) is None,
    ensures
        r.stop && r.feed@.len() == 0,
        final(panel)@ == old(panel)@,
{
}

/// The emulator's answers go to the terminal that asked, where input is taken;
/// no answer goes nowhere.
pub proof fn answers_go_to_their_terminal(
    panel: &TerminalPanel,
    chat: &str,
    key: u64,
    answers: &Vec<u8>,
    r: Option<String>,
)
    requires
        call_ensures(TerminalPanel::answer_to, (panel, chat, key, answers), r),
    ensures
        answers@.len() == 0 ==> r is None,
        panel@.session_view && !(panel@.status is Opening || panel@.status is Ready) ==> r is None,
        panel@.tab(chat@, key) is None ==> r is None,
        panel@.tab(chat@, key) matches Some(tab) ==> (answers@.len() > 0 && (!panel@.session_view
            || panel@.status is Opening || panel@.status is Ready) ==> r.deep_view()
            == tab.terminal_id),
{
}

/// A queued write of a provider's view goes out only to the terminal it was
/// queued for, while that runs and takes input.
pub proof fn a_late_write_is_dropped(
    panel: &TerminalPanel,
    chat: &str,
    key: u64,
    id: &str,
    r: bool,
)
    requires
        call_ensures(TerminalPanel::still_writable, (panel, chat, key, id), r),
    ensures
        !panel@.session_view ==> r,
        panel@.session_view && r ==> {
            &&& panel@.tab(chat@, key) matches Some(tab) && tab.exited is None && tab.terminal_id
                == Some(id@)
            &&& panel@.status is Opening || panel@.status is Ready
        },
        panel@.tab(chat@, key) matches Some(tab) ==> (tab.exited is None && tab.terminal_id == Some(
            id@,
        ) && (panel@.status is Opening || panel@.status is Ready) ==> r),
{
}

/// Typed bytes are queued on the tab that shows, behind what was typed before,
/// and on no other; a return submits a line to a provider's session.
pub proof fn typing_is_queued_on_the_shown_tab(
    panel: &mut TerminalPanel,
    bytes: &[u8],
    app: &AppView,
    r: Option<QueueEffect>,
    chat: Seq<char>,
    other: Seq<char>,
)
    requires
        call_ensures(TerminalPanel::queue_input, (panel, bytes, app), r),
        old(panel)@.chat(app@) == Some(chat),
        old(panel)@.chats.dom().contains(chat),
        old(panel)@.chats[chat].active < old(panel)@.chats[chat].tabs.len(),
    ensures
        ({
            let at = old(panel)@.chats[chat].active as int;
            let was = old(panel)@.chats[chat].tabs[at];
            let is = final(panel)@.chats[chat].tabs[at];
            let taken = !old(panel)@.session_view || old(panel)@.status is Opening || old(panel)@.status is Ready;
            &&& r is Some <==> taken && was.exited is None
            &&& r is None ==> final(panel)@ == old(panel)@
            &&& r matches Some(effect) ==> {
                &&& is.queued == was.queued + bytes@
                &&& effect.key == was.key
                &&& effect.schedule <==> was.queued.len() == 0
                &&& effect.submitted <==> old(panel)@.session_view && bytes@.contains(0x0du8)
            }
            &&& final(panel)@.chats[chat].active == at
        }),
        other != chat ==> final(panel)@.chats[other] == old(panel)@.chats[other],
{
}

/// A measured grid resizes the tab that shows where its size differs, unless
/// resizes are suspended or no input is taken.
pub proof fn a_new_grid_resizes_the_shown_tab(
    panel: &mut TerminalPanel,
    cols: u16,
    rows: u16,
    app: &AppView,
    r: Option<(u64, bool)>,
    chat: Seq<char>,
)
    requires
        call_ensures(TerminalPanel::on_grid_metrics, (panel, cols, rows, app), r),
        old(panel)@.chat(app@) == Some(chat),
        old(panel)@.chats.dom().contains(chat),
        old(panel)@.chats[chat].active < old(panel)@.chats[chat].tabs.len(),
    ensures
        ({
            let at = old(panel)@.chats[chat].active as int;
            let was = old(panel)@.chats[chat].tabs[at];
            let is = final(panel)@.chats[chat].tabs[at];
            let taken = !old(panel)@.session_view || old(panel)@.status is Opening || old(panel)@.status is Ready;
            &&& r is Some <==> !old(panel)@.resize_suspended && taken && (was.cols != cols
                || was.rows != rows)
            &&& r is None ==> final(panel)@ == old(panel)@
            &&& r matches Some(resized) ==> is.cols == cols && is.rows == rows && resized.0
                == was.key && resized.1 == app@.engine && is.queued == was.queued
        }),
{
}

/// A due resize tells the tab's present size to its terminal: the one it has,
/// else the one it had when the resize was asked for.
pub proof fn a_due_resize_tells_the_present_size(
    panel: &TerminalPanel,
    chat: &str,
    key: u64,
    asked: &Option<String>,
    r: Option<(String, usize, usize)>,
)
    requires
        call_ensures(TerminalPanel::due_resize, (panel, chat, key, asked), r),
    ensures
        panel@.tab(chat@, key) is None ==> r is None,
        panel@.session_view && !(panel@.status is Opening || panel@.status is Ready) ==> r is None,
        panel@.tab(chat@, key) matches Some(tab) ==> {
            &&& r matches Some(resize) ==> resize.1 == tab.cols && resize.2 == tab.rows
            &&& r is Some && tab.terminal_id is Some ==> Some((r->0).0@) == tab.terminal_id
            &&& r is Some && tab.terminal_id is None ==> Some((r->0).0@) == asked.deep_view()
            &&& (!panel@.session_view || panel@.status is Opening || panel@.status is Ready) && (
            tab.terminal_id is Some || asked is Some) ==> r is Some
        },
{
}

/// Committed text is queued as one piece on the tab that shows and ends the
/// composition; an empty commit only cancels it.
pub proof fn committed_text_is_queued_whole(
    panel: &mut TerminalPanel,
    text: &str,
    app: &AppView,
    r: Option<QueueEffect>,
    chat: Seq<char>,
)
    requires
        call_ensures(TerminalPanel::replace_text_in_range, (panel, None::<Span>, text, app), r),
        old(panel)@.chat(app@) == Some(chat),
        old(panel)@.chats.dom().contains(chat),
        old(panel)@.chats[chat].active < old(panel)@.chats[chat].tabs.len(),
    ensures
        ({
            let at = old(panel)@.chats[chat].active as int;
            let was = old(panel)@.chats[chat].tabs[at];
            let is = final(panel)@.chats[chat].tabs[at];
            &&& text@.len() == 0 ==> r is None && final(panel)@.chats == old(panel)@.chats
            &&& r is Some ==> is.queued == was.queued + encode_utf8(text@) && r->0.key == was.key
            &&& r is Some ==> (r->0.schedule <==> was.queued.len() == 0)
            &&& final(panel)@.preedit.text.len() == 0
            &&& text@.len() > 0 && old(panel)@.open && !old(panel)@.session_view && was.exited
                is None ==> r is Some
        }),
{
    let before = old(panel)@.preedit;
    let after = before.replaced(None, text@, None);
    assert(after.text =~= text@) by {
        assert(before.text.subrange(0, 0) =~= Seq::<char>::empty());
        assert(before.text.subrange(before.text.len() as int, before.text.len() as int)
            =~= Seq::<char>::empty());
    }
}

/// Composed text shows and is not sent; nothing is composed where no text is
/// taken, and an empty one ends the composition.
pub proof fn composed_text_is_not_sent(
    panel: &mut TerminalPanel,
    text: &str,
    selection: Option<Span>,
    app: &AppView,
    r: bool,
)
    requires
        call_ensures(
            TerminalPanel::replace_and_mark_text_in_range,
            (panel, None::<Span>, text, selection, app),
            r,
        ),
    ensures
        final(panel)@.chats == old(panel)@.chats,
        r ==> final(panel)@.preedit.text == text@ && text@.len() > 0,
        !r ==> final(panel)@.preedit.text.len() == 0,
        text@.len() == 0 ==> !r,
        final(panel)@.status == old(panel)@.status,
{
    let before = old(panel)@.preedit;
    let after = before.replaced(
        None,
        text@,
        match selection {
            Some(range) => Some((range.start as int, range.end as int)),
            None => None,
        },
    );
    assert(after.text =~= text@) by {
        assert(before.text.subrange(0, 0) =~= Seq::<char>::empty());
        assert(before.text.subrange(before.text.len() as int, before.text.len() as int)
            =~= Seq::<char>::empty());
    }
}

/// A composition that is unmarked is gone, and nothing else with it.
pub proof fn an_unmarked_composition_is_gone(panel: &mut TerminalPanel, nothing: ())
    requires
        call_ensures(TerminalPanel::unmark_text, (panel,), nothing),
    ensures
        final(panel)@.preedit.text.len() == 0,
        final(panel)@.chats == old(panel)@.chats && final(panel)@.status == old(panel)@.status,
        final(panel)@.open == old(panel)@.open,
{
}

/// What is composed is told, with its length in platform units, exactly while
/// text is taken and something is composed.
pub proof fn a_composition_is_told(
    panel: &TerminalPanel,
    app: &AppView,
    text: Option<String>,
    range: Option<Span>,
    length: Option<usize>,
)
    requires
        call_ensures(TerminalPanel::marked_text, (panel, app), text),
        call_ensures(TerminalPanel::marked_text_range, (panel, app), range),
        call_ensures(TerminalPanel::text_length_utf16, (panel, app), length),
    ensures
        text is Some <==> range is Some,
        text matches Some(t) ==> t@ == panel@.preedit.text && t@.len() > 0,
        range matches Some(r) ==> r.start == 0 && length == Some(r.end),
        panel@.preedit.text.len() == 0 || !panel@.open ==> text is None,
{
}

} // verus!
