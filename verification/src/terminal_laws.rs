//! What holds of terminals: how a session comes up and resumes, what reaches
//! the program, which tab shows, and how a provider's view is handed over.
use vstd::prelude::*;
use vstd::utf8::encode_utf8;
use crate::json::Value;
use crate::scrollbar::TranscriptScrollbarState;
use crate::status_palette::{resolved, state_label, state_tint, ChatIndicator, SessionState};
use crate::terminal_panel::{
    dragged_over, first_host, flushed, has_queued, host_of, key_place, slot_of, stopped, strip_of,
    tab_closed, view_closed, App, AppView, ChatHost, CloseReply, CloseTabReply, DragState, Panel,
    Tab, TabCell, Tabs, ViewStatus,
};
use crate::terminal_requests::{
    addressed, open_members, resize_members, subscribe_members, write_members,
};
use crate::terminal_run::{Run, RunDeed, RunNews};
use crate::terminal_tabs::{
    arrow_bytes, exit_text, last_component, moved, place_after_close, place_after_reorder, repeated,
    slide, title_of_shell, wheel_button, wheel_report, WheelModifiers,
};
use crate::terminal_view::{press_of, Gesture, Grain, KeyPress, KeyRoute, Move, Press, Screen};
use crate::text::{decimal_text, signed_text, trimmed};
use crate::theme::{Theme, Tint};

verus! {

/// A terminal that opened while its tab is there is told the size that tab has
/// by now, where it grew; those who wait for a provider's view hear that it is
/// there; and its frames are asked for from where the tab stands.
pub proof fn an_opened_terminal_streams(
    run: Run,
    id: Seq<char>,
    cols: usize,
    rows: usize,
    after: u64,
)
    requires
        run.stage is Opening,
    ensures
        ({
            let opened = run.step(RunNews::Opened { id, attached: true, cols, rows });
            let asked = opened.next.step(RunNews::Resume(Some(after)));
            let live = asked.next.step(RunNews::Subscribed);
            let grew = cols != run.cols || rows != run.rows;
            &&& opened.deeds.len() == (if grew {
                1int
            } else {
                0
            }) + (if run.session_view {
                1int
            } else {
                0
            }) + 1
            &&& grew ==> opened.deeds[0] == (RunDeed::Resize { id, cols, rows })
            &&& opened.deeds.contains(RunDeed::ReadyOk) <==> run.session_view
            &&& opened.deeds.last() is LookUp
            &&& asked.deeds == seq![RunDeed::Subscribe { id, after }]
            &&& live.next.stage is Streaming
            &&& live.deeds.len() == 0
            &&& live.next.terminal_id == Some(id)
        }),
{
    let opened = run.step(RunNews::Opened { id, attached: true, cols, rows });
    let grew = cols != run.cols || rows != run.rows;
    if run.session_view {
        let at: int = if grew {
            1
        } else {
            0
        };
        assert(opened.deeds[at] == RunDeed::ReadyOk);
    }
}

/// A terminal that did not open says why, and tells those who wait for a
/// provider's view the same; the run is over.
pub proof fn a_failed_open_says_why(run: Run, error: Seq<char>)
    requires
        run.stage is Opening,
    ensures
        ({
            let outcome = run.step(RunNews::OpenFailed(error));
            &&& outcome.next.stage is Finished
            &&& outcome.deeds[0] == RunDeed::ShowOpenFailure(error)
            &&& run.session_view ==> outcome.deeds.len() == 2 && outcome.deeds[1]
                == RunDeed::ReadyErr(error)
            &&& !run.session_view ==> outcome.deeds.len() == 1
        }),
{
}

/// Each attempt that fails without a frame in between waits twice as long as
/// the one before, half a second at first and eight seconds at most; the wait
/// over, the stream is looked up again.
pub proof fn a_failing_stream_waits_longer(run: Run, dropped: bool)
    requires
        if dropped {
            run.stage is Streaming
        } else {
            run.stage is Subscribing
        },
        run.attempt < u32::MAX,
    ensures
        ({
            let outcome = if dropped {
                run.step(RunNews::Dropped(false))
            } else {
                run.step(RunNews::SubscribeFailed)
            };
            let waited = outcome.next.step(RunNews::Waited);
            &&& outcome.next.stage is Waiting
            &&& outcome.next.attempt == run.attempt + 1
            &&& outcome.deeds.len() == 1
            &&& run.attempt == 0 ==> outcome.deeds[0] == RunDeed::Wait(500)
            &&& run.attempt == 1 ==> outcome.deeds[0] == RunDeed::Wait(1000)
            &&& run.attempt == 2 ==> outcome.deeds[0] == RunDeed::Wait(2000)
            &&& run.attempt == 3 ==> outcome.deeds[0] == RunDeed::Wait(4000)
            &&& run.attempt >= 4 ==> outcome.deeds[0] == RunDeed::Wait(8000)
            &&& waited.deeds == seq![RunDeed::LookUp]
            &&& waited.next.stage is Resuming
        }),
{
}

/// A run ends, without a word, with the last frame, with a stream whose tab is
/// gone or whose process exited, and with a tab that is gone when it would
/// resume; any other frame keeps it streaming.
pub proof fn a_run_ends_with_its_process(run: Run)
    ensures
        run.stage is Streaming ==> {
            &&& run.step(RunNews::Frame(true)).next.stage is Finished
            &&& run.step(RunNews::Frame(true)).deeds.len() == 0
            &&& run.step(RunNews::Frame(false)).next.stage is Streaming
            &&& run.step(RunNews::Frame(false)).next.attempt == 0
            &&& run.step(RunNews::Dropped(true)).next.stage is Finished
            &&& run.step(RunNews::Dropped(true)).deeds.len() == 0
            &&& run.step(RunNews::Malformed).next == run
        },
        run.stage is Resuming ==> run.step(RunNews::Resume(None)).next.stage is Finished
            && run.step(RunNews::Resume(None)).deeds.len() == 0,
{
}

/// A run that is about to open waits for that, with the size it was asked for.
pub proof fn a_run_begins_by_opening(session_view: bool, cols: u16, rows: u16)
    ensures
        ({
            let run = Run::opening(session_view, cols, rows);
            &&& run.stage is Opening && run.attempt == 0
            &&& run.session_view == session_view && run.cols == cols && run.rows == rows
        }),
{
}

/// A moved tab comes to its place; those it passed make room, and the others
/// stay.
pub proof fn a_moved_tab_comes_to_its_place<T>(items: Seq<T>, from: int, to: int, i: int)
    requires
        0 <= from < items.len(),
        0 <= to < items.len(),
        0 <= i < items.len(),
    ensures
        moved(items, from, to).len() == items.len(),
        moved(items, from, to)[to] == items[from],
        i < from && i < to ==> moved(items, from, to)[i] == items[i],
        i > from && i > to ==> moved(items, from, to)[i] == items[i],
        from < i <= to ==> moved(items, from, to)[i - 1] == items[i],
        to <= i < from ==> moved(items, from, to)[i + 1] == items[i],
        from < i <= to ==> slide(i, from, to) == -1,
        to <= i < from ==> slide(i, from, to) == 1,
        (i < from && i < to) || (i > from && i > to) ==> slide(i, from, to) == 0,
        place_after_reorder(from, from, to) == to,
{
}

/// A closed tab hands the view to the one behind it, or to the last where
/// there is none behind it.
pub proof fn a_closed_tab_hands_over(closed: int, len: int)
    requires
        0 <= closed < len,
    ensures
        closed < len - 1 ==> place_after_close(closed, closed, len - 1) == closed,
        closed == len - 1 && len > 1 ==> place_after_close(closed, closed, len - 1) == len - 2,
        len == 1 ==> place_after_close(closed, closed, 0) == 0,
{
}

/// A tab is titled by the last component of its shell's path, and as a
/// terminal where that is blank.
pub proof fn a_shell_is_titled_by_its_name(front: Seq<char>, sep: char, name: Seq<char>)
    requires
        sep == '/' || sep == '\\',
        forall|i: int| 0 <= i < name.len() ==> name[i] != '/' && name[i] != '\\',
    ensures
        trimmed(name).len() > 0 ==> title_of_shell(front + seq![sep] + name) == trimmed(name)
            && title_of_shell(name) == trimmed(name),
        trimmed(name).len() == 0 ==> title_of_shell(front + seq![sep] + name) == "terminal"@,
{
    let path = front + seq![sep] + name;
    component_begins_behind_the_separator(front, sep, name);
    assert(path.subrange(front.len() as int + 1, path.len() as int) =~= name);
    bare_names_have_no_separator(name);
    assert(name.subrange(0, name.len() as int) =~= name);
}

proof fn component_begins_behind_the_separator(front: Seq<char>, sep: char, name: Seq<char>)
    requires
        sep == '/' || sep == '\\',
        forall|i: int| 0 <= i < name.len() ==> name[i] != '/' && name[i] != '\\',
    ensures
        last_component(front + seq![sep] + name) == front.len() + 1,
    decreases name.len(),
{
    let path = front + seq![sep] + name;
    if name.len() == 0 {
        assert(path.last() == sep);
    } else {
        assert(path.last() == name[name.len() - 1]);
        assert(path.drop_last() =~= front + seq![sep] + name.drop_last());
        component_begins_behind_the_separator(front, sep, name.drop_last());
    }
}

proof fn bare_names_have_no_separator(name: Seq<char>)
    requires
        forall|i: int| 0 <= i < name.len() ==> name[i] != '/' && name[i] != '\\',
    ensures
        last_component(name) == 0,
    decreases name.len(),
{
    if name.len() > 0 {
        assert(name.last() == name[name.len() - 1]);
        bare_names_have_no_separator(name.drop_last());
    }
}

/// The trailer of an exited process names its code, between line breaks.
pub proof fn a_trailer_names_the_exit_code(code: int)
    ensures
        exit_text(code) == "\r\n\x1b[90m[process exited "@ + signed_text(code)
            + "]\x1b[0m\r\n"@,
{
}

/// A legacy report has six bytes for a cell it can address: the button and the
/// two coordinates, each past the controls; past its reach there is none. The
/// extended report takes any cell, counted from one.
pub proof fn a_wheel_report_names_its_cell(button: int, col: int, row: int, utf8: bool)
    requires
        0 <= button <= 223,
        0 <= col,
        0 <= row,
    ensures
        col < 223 && row < 223 ==> {
            let report = wheel_report(button, col, row, false, false);
            &&& report is Some
            &&& report->0.len() == 6
            &&& report->0[0] == 0x1b && report->0[1] == 0x5b && report->0[2] == 0x4d
            &&& report->0[3] == button + 32
            &&& report->0[4] == col + 33
            &&& report->0[5] == row + 33
        },
        col >= 223 || row >= 223 ==> wheel_report(button, col, row, false, false) is None,
        col >= 2015 || row >= 2015 ==> wheel_report(button, col, row, false, true) is None,
        col < 2015 && row < 2015 ==> wheel_report(button, col, row, false, true) is Some,
        wheel_report(button, col, row, true, utf8) == Some(
            encode_utf8(
                "\x1b[<"@ + decimal_text(button as nat) + ";"@ + decimal_text((col + 1) as nat)
                    + ";"@ + decimal_text((row + 1) as nat) + "M"@,
            ),
        ),
{
}

/// The wheel's button tells its direction and the modifiers apart.
pub proof fn a_wheel_button_tells_its_direction(up: bool, modifiers: WheelModifiers)
    ensures
        wheel_button(true, WheelModifiers { shift: false, alt: false, control: false }) == 64,
        wheel_button(false, modifiers) == wheel_button(true, modifiers) + 1,
        wheel_button(up, WheelModifiers { alt: true, ..modifiers }) == wheel_button(
            up,
            WheelModifiers { alt: false, ..modifiers },
        ) + 8,
        wheel_button(up, WheelModifiers { control: true, ..modifiers }) == wheel_button(
            up,
            WheelModifiers { control: false, ..modifiers },
        ) + 16,
{
}

/// An arrow goes up or down, in the form the program asked for.
pub proof fn an_arrow_points_where_the_wheel_turned(app_cursor: bool)
    ensures
        arrow_bytes(true, app_cursor)[2] == 0x41u8,
        arrow_bytes(false, app_cursor)[2] == 0x42u8,
        arrow_bytes(true, true) == seq![0x1bu8, 0x4f, 0x41],
        arrow_bytes(true, false) == seq![0x1bu8, 0x5b, 0x41],
        arrow_bytes(false, app_cursor).take(2) == arrow_bytes(true, app_cursor).take(2),
{
    assert(arrow_bytes(false, app_cursor).take(2) =~= arrow_bytes(true, app_cursor).take(2));
    assert(arrow_bytes(true, true) =~= seq![0x1bu8, 0x4f, 0x41]);
    assert(arrow_bytes(true, false) =~= seq![0x1bu8, 0x5b, 0x41]);
}

/// Bytes sent again and again are sent that often, each time in full.
pub proof fn steps_are_sent_one_by_one(bytes: Seq<u8>, times: nat)
    ensures
        repeated(bytes, 0).len() == 0,
        repeated(bytes, 1) == bytes,
        repeated(bytes, times + 1) == repeated(bytes, times) + bytes,
        repeated(bytes, times).len() == times * bytes.len(),
    decreases times,
{
    reveal_with_fuel(repeated, 3);
    assert(repeated(bytes, 1) =~= bytes);
    if times > 0 {
        steps_are_sent_one_by_one(bytes, (times - 1) as nat);
        assert(times * bytes.len() == (times - 1) * bytes.len() + bytes.len()) by (nonlinear_arith)
            requires
                times > 0,
        ;
    } else {
        assert(times * bytes.len() == 0) by (nonlinear_arith)
            requires
                times == 0,
        ;
    }
}

/// A request names the device it is meant for exactly where that is another
/// one, behind its own parameters.
pub proof fn a_request_is_addressed(members: Seq<(Seq<char>, Value)>, device: Seq<char>)
    ensures
        addressed(members, None) == Value::Object(members),
        addressed(members, Some(device)) matches Value::Object(all) && all.len() == members.len()
            + 1 && all.take(members.len() as int) == members && all.last() == (
            "targetDeviceId"@,
            Value::Text(device),
        ),
{
    let all = members.push(("targetDeviceId"@, Value::Text(device)));
    assert(all.take(members.len() as int) =~= members);
}

/// Requests say which terminal or chat they are for, and what of it.
pub proof fn requests_carry_their_parameters(
    id: Seq<char>,
    cols: u16,
    rows: u16,
    after: u64,
    data: Seq<char>,
    wide: usize,
    high: usize,
)
    requires
        wide <= u64::MAX,
        high <= u64::MAX,
    ensures
        open_members(id, cols, rows).contains(("chatId"@, Value::Text(id))),
        open_members(id, cols, rows).contains(("cols"@, Value::Unsigned(cols as u64))),
        open_members(id, cols, rows).contains(("rows"@, Value::Unsigned(rows as u64))),
        subscribe_members(id, after).contains(("terminalId"@, Value::Text(id))),
        subscribe_members(id, after).contains(("afterSeq"@, Value::Unsigned(after))),
        resize_members(id, wide, high).contains(("terminalId"@, Value::Text(id))),
        resize_members(id, wide, high).contains(("cols"@, Value::Unsigned(wide as u64))),
        resize_members(id, wide, high).contains(("rows"@, Value::Unsigned(high as u64))),
        write_members(id, data).contains(("terminalId"@, Value::Text(id))),
        write_members(id, data).contains(("data"@, Value::Text(data))),
{
    assert(open_members(id, cols, rows)[0] == ("chatId"@, Value::Text(id)));
    assert(open_members(id, cols, rows)[1] == ("cols"@, Value::Unsigned(cols as u64)));
    assert(open_members(id, cols, rows)[2] == ("rows"@, Value::Unsigned(rows as u64)));
    assert(subscribe_members(id, after)[0] == ("terminalId"@, Value::Text(id)));
    assert(subscribe_members(id, after)[1] == ("afterSeq"@, Value::Unsigned(after)));
    assert(resize_members(id, wide, high)[0] == ("terminalId"@, Value::Text(id)));
    assert(resize_members(id, wide, high)[1] == ("cols"@, Value::Unsigned(wide as u64)));
    assert(resize_members(id, wide, high)[2] == ("rows"@, Value::Unsigned(high as u64)));
    assert(write_members(id, data)[0] == ("terminalId"@, Value::Text(id)));
    assert(write_members(id, data)[1] == ("data"@, Value::Text(data)));
}

/// The keys of the clipboard reach it with the platform key, or with control
/// and shift; copying only where something is selected. Keys the platform
/// turns into text are left to it.
pub proof fn clipboard_keys_reach_the_clipboard(
    press: KeyPress,
    composing: bool,
    selected: bool,
    screen: Option<Screen>,
)
    ensures
        press.prefers_text <==> press.route(composing, selected, screen) is PlatformText,
        !press.prefers_text && press.key@ == "v"@ && (press.platform || (press.control
            && press.shift)) ==> press.route(composing, selected, screen) is Paste,
        press.route(composing, selected, screen) is Paste ==> press.key@ == "v"@ && (press.platform
            || (press.control && press.shift)),
        !press.prefers_text && press.key@ == "c"@ && selected && (press.platform || (press.control
            && press.shift)) ==> press.route(composing, selected, screen) is Copy,
        press.route(composing, selected, screen) is Copy ==> press.key@ == "c"@ && selected && (
        press.platform || (press.control && press.shift)),
{
    reveal_strlit("v");
    reveal_strlit("c");
    assert("v"@[0] != "c"@[0]);
}

/// Paging with shift alone scrolls a main screen by its height, up or down; on
/// an alternate screen the program keeps its keys.
pub proof fn paging_scrolls_the_history(press: KeyPress, screen: Screen, selected: bool)
    requires
        !press.prefers_text,
        press.shift && !press.control && !press.alt && !press.platform,
    ensures
        press.key@ == "pageup"@ && !screen.alternate ==> press.route(false, selected, Some(screen))
            == KeyRoute::Scroll(screen.rows as i32),
        press.key@ == "pagedown"@ && !screen.alternate ==> press.route(
            false,
            selected,
            Some(screen),
        ) == KeyRoute::Scroll((-(screen.rows as int)) as i32),
        screen.alternate ==> press.route(false, selected, Some(screen)) is Encode,
        press.route(false, selected, None) is Encode,
{
    reveal_strlit("pageup");
    reveal_strlit("pagedown");
    reveal_strlit("v");
    reveal_strlit("c");
    assert("pageup"@.len() == 6);
    assert("pagedown"@.len() == 8);
    assert("v"@.len() == 1);
    assert("c"@.len() == 1);
}

/// Text that is being composed owns the plain keys, and no chord.
pub proof fn a_composition_owns_plain_keys(press: KeyPress, selected: bool)
    requires
        !press.prefers_text,
    ensures
        !press.control && !press.alt && !press.platform ==> press.route(true, selected, None)
            is Composition && press.route(false, selected, None) is Encode,
        press.alt && !press.platform && !press.control ==> press.route(true, selected, None)
            is Encode,
{
}

/// One click clears the selection, or extends it with shift where there is
/// one; two select a word, more a line; outside the grid nothing happens.
pub proof fn clicks_select_by_their_number(clicks: nat, shift: bool, selected: bool)
    ensures
        press_of(false, clicks, shift, selected) is Nothing,
        clicks == 1 ==> press_of(true, clicks, shift, selected) == (if shift && selected {
            Press::Extend
        } else {
            Press::Clear
        }),
        clicks == 2 ==> press_of(true, clicks, shift, selected) == Press::Select(Grain::Word),
        clicks >= 3 ==> press_of(true, clicks, shift, selected) == Press::Select(Grain::Line),
{
}

/// A press becomes a selection once it traveled far enough from a cell of the
/// grid, and follows the pointer from then on; without a press nothing is
/// selected, and a held thumb only scrolls.
pub proof fn a_selection_follows_the_pointer(gesture: Gesture, far: bool, on_grid: bool)
    ensures
        !gesture.thumb && gesture.selection == Some(false) ==> {
            &&& gesture.after_move(true, true, true).selection == Some(true)
            &&& gesture.move_of(true, true, true, true) == (Move::Extend { begin: true })
            &&& gesture.move_of(true, true, true, false) is Begin
            &&& gesture.move_of(true, true, false, on_grid) is Nothing
            &&& gesture.after_move(true, true, false) == gesture
        },
        !gesture.thumb && gesture.selection == Some(true) ==> {
            &&& gesture.move_of(true, far, true, true) == (Move::Extend { begin: false })
            &&& gesture.move_of(true, far, true, false) is Nothing
            &&& gesture.after_move(true, far, true) == gesture
        },
        !gesture.thumb && gesture.selection is None ==> gesture.move_of(true, far, true, on_grid)
            is Nothing,
        !gesture.thumb ==> gesture.move_of(false, far, true, on_grid) is Nothing,
        gesture.thumb ==> gesture.move_of(true, far, true, on_grid) is DragThumb && gesture.move_of(
            false,
            far,
            true,
            on_grid,
        ) is Nothing && !gesture.after_move(false, far, true).thumb && gesture.after_move(
            true,
            far,
            true,
        ) == gesture,
        Gesture::idle().selection is None && !Gesture::idle().thumb && !Gesture::idle().scroll_due,
{
}

/// The rail paints exactly over the transcript or while it is dragged, and is
/// emphasised exactly over itself or while it is dragged.
pub proof fn a_rail_paints_where_it_is_used(state: TranscriptScrollbarState, hovered: bool)
    ensures
        state.is_visible() <==> state.viewport_hovered || state.grabbed,
        state.is_active() <==> state.bar_hovered || state.grabbed,
        state.over_viewport(hovered).viewport_hovered == hovered,
        state.over_viewport(hovered).grabbed == state.grabbed,
        !state.grabbed && state.viewport_hovered ==> !state.over_viewport(false).bar_hovered,
        !state.grabbed ==> state.over_bar(hovered).bar_hovered == hovered,
        state.over_bar(hovered).viewport_hovered == state.viewport_hovered,
        !state.released().grabbed,
        state.grabbed && state.viewport_hovered ==> state.released().bar_hovered
            == state.bar_hovered,
{
}

/// A session shows what the engine says of it, unless a send says otherwise.
pub proof fn a_session_shows_its_indicator(indicator: ChatIndicator)
    ensures
        ({
            let state = resolved(indicator, false, false);
            &&& state is Failed <==> indicator is Errored
            &&& state is AwaitingInput <==> indicator is AwaitingInput
            &&& state is Working <==> indicator is Working
            &&& state is Completed <==> indicator is Completed
            &&& state is Idle <==> indicator is Idle
        }),
{
}

/// Each state that is told is told by its own word and its own colour, in the
/// variant of the appearance.
pub proof fn states_have_their_words_and_colours(theme: Theme)
    ensures
        state_label(SessionState::Failed) == Some("Failed"@),
        state_label(SessionState::AwaitingInput) == Some("Awaiting input"@),
        state_label(SessionState::Working) == Some("Working"@),
        state_label(SessionState::Queued) == Some("Queued"@),
        state_label(SessionState::Completed) == Some("Completed"@),
        state_tint(SessionState::Failed, theme) == Some(Tint { color: theme.danger, percent: 100 }),
        state_tint(SessionState::Queued, theme) is None,
        state_tint(SessionState::Idle, theme) is None,
        theme.appearance is Dark ==> {
            &&& state_tint(SessionState::AwaitingInput, theme)->0.color == 0xa5b4fc
            &&& state_tint(SessionState::Working, theme)->0.color == 0x7dd3fc
            &&& state_tint(SessionState::Completed, theme)->0.color == 0x6ee7b7
        },
        theme.appearance is Light ==> {
            &&& state_tint(SessionState::AwaitingInput, theme)->0.color == 0x4f46e5
            &&& state_tint(SessionState::Working, theme)->0.color == 0x0284c7
            &&& state_tint(SessionState::Completed, theme)->0.color == 0x059669
        },
        state_tint(SessionState::AwaitingInput, theme) is Some,
        state_tint(SessionState::Working, theme) is Some,
        state_tint(SessionState::Completed, theme) is Some,
{
}

/// A tab is labelled by what its program calls itself, where that says
/// something, and by its title otherwise.
pub proof fn a_tab_is_labelled_by_its_program(tab: Tab, live: Seq<char>)
    ensures
        trimmed(live).len() > 0 ==> (Tab { live_title: Some(live), ..tab }).label() == trimmed(
            live,
        ),
        trimmed(live).len() == 0 ==> (Tab { live_title: Some(live), ..tab }).label() == tab.title,
        (Tab { live_title: None, ..tab }).label() == tab.title,
{
}

/// A fresh tab has no terminal yet, nothing queued, and the next number in its
/// title; it comes last and shows.
pub proof fn a_fresh_tab_comes_last(tabs: Tabs, key: u64)
    ensures
        ({
            let after = tabs.with_tab(key);
            let fresh = after.tabs.last();
            &&& after.tabs.len() == tabs.tabs.len() + 1
            &&& after.tabs.drop_last() == tabs.tabs
            &&& after.shown() == Some(fresh)
            &&& fresh.key == key
            &&& fresh.title == "Terminal "@ + decimal_text(tabs.tabs.len() + 1)
            &&& fresh.terminal_id is None && fresh.exited is None && fresh.live_title is None
            &&& fresh.queued.len() == 0 && fresh.last_seq == 0
            &&& fresh.cols == 80 && fresh.rows == 24
        }),
{
    assert(tabs.with_tab(key).tabs.drop_last() =~= tabs.tabs);
}

/// A tab is found under its key, and the first where more share it.
pub proof fn a_tab_is_found_under_its_key(tabs: Seq<Tab>, key: u64)
    ensures
        0 <= key_place(tabs, key) <= tabs.len(),
        key_place(tabs, key) < tabs.len() ==> tabs[key_place(tabs, key)].key == key,
        forall|i: int| 0 <= i < key_place(tabs, key) ==> (#[trigger] tabs[i]).key != key,
    decreases tabs.len(),
{
    if tabs.len() > 0 && tabs[0].key != key {
        let rest = tabs.subrange(1, tabs.len() as int);
        a_tab_is_found_under_its_key(rest, key);
        let at = key_place(rest, key);
        if at < rest.len() {
            assert(rest[at] == tabs[at + 1]);
        }
        assert forall|i: int| 0 <= i < at + 1 implies (#[trigger] tabs[i]).key != key by {
            if i > 0 {
                assert(rest[i - 1] == tabs[i]);
            }
        }
    }
}

/// Closing a tab takes that one and no other, and the shown tab stays shown
/// where it was another; moving one keeps the shown tab shown.
pub proof fn the_shown_tab_stays_shown(tabs: Tabs, at: int, to: int)
    requires
        tabs.active < tabs.tabs.len(),
        0 <= at < tabs.tabs.len(),
        0 <= to < tabs.tabs.len(),
    ensures
        at != tabs.active ==> tabs.without(at).shown() == tabs.shown(),
        tabs.without(at).tabs == tabs.tabs.remove(at),
        tabs.reordered(at, to).shown() == tabs.shown(),
        tabs.reordered(at, to).tabs[to] == tabs.tabs[at],
        tabs.reordered(at, to).tabs.to_multiset() == tabs.tabs.to_multiset(),
{
    crate::terminal_tabs::the_active_tab_survives_a_close(tabs.tabs, tabs.active as int, at);
    crate::terminal_tabs::the_active_tab_follows_a_reorder(tabs.tabs, at, to, tabs.active as int);
    crate::terminal_tabs::a_reorder_keeps_every_tab(tabs.tabs, at, to);
    a_moved_tab_comes_to_its_place(tabs.tabs, at, to, at);
}

/// A provider's view shows the chat it is bound to; any other panel, and a view
/// that is not bound, the selected one.
pub proof fn a_panel_shows_its_chat(panel: Panel, app: App)
    ensures
        panel.session_view && panel.session_chat is Some ==> panel.chat(app) == panel.session_chat,
        !panel.session_view || panel.session_chat is None ==> panel.chat(app)
            == app.selected_chat,
        forall|chat: Seq<char>|
            panel.chat(app) == Some(chat) && panel.chats.dom().contains(chat)
                ==> #[trigger] panel.chat_tabs(app) == Some(panel.chats[chat]),
        panel.chat(app) is None ==> panel.active_tab(app) is None,
        panel.chat_tabs(app) is Some ==> panel.active_tab(app) == panel.chat_tabs(app)->0.shown(),
{
}

/// Input is taken by a drawer always, and by a provider's view exactly while
/// that opens or is ready; text only by an open panel whose process runs.
pub proof fn input_needs_a_running_terminal(panel: Panel, app: App)
    ensures
        !panel.session_view ==> panel.takes_input(),
        panel.session_view ==> (panel.takes_input() <==> panel.status is Opening || panel.status
            is Ready),
        panel.takes_text(app) ==> panel.open && panel.takes_input() && panel.active_tab(app)
            is Some && panel.active_tab(app)->0.exited is None,
        panel.open && panel.takes_input() && panel.active_tab(app) is Some && panel.active_tab(
            app,
        )->0.exited is None ==> panel.takes_text(app),
{
}

/// A change of status is taken over. Readiness begins to watch the native
/// session where the view is bound and an engine is there, idling ends it and
/// forgets what was heard, and composed text survives only where input is
/// taken.
pub proof fn a_status_is_taken_over(panel: Panel, status: ViewStatus, engine: bool)
    requires
        panel.status != status,
    ensures
        ({
            let after = panel.at_status(status, engine);
            &&& after.status == status
            &&& status is Ready && panel.session_chat is Some && engine ==> after.watching
            &&& status is Ready && (panel.session_chat is None || !engine) ==> after.watching
                == panel.watching
            &&& status is Idle ==> !after.watching && after.activity is None
            &&& !(status is Idle) ==> after.activity == panel.activity
            &&& status is Opening || status is Closing || status is Failed ==> after.watching
                == panel.watching
            &&& status is Opening || status is Ready ==> after.preedit == panel.preedit
            &&& status is Idle || status is Closing || status is Failed
                ==> after.preedit.text.len() == 0
            &&& after.chats == panel.chats && after.open == panel.open && after.session_chat
                == panel.session_chat && after.session_open == panel.session_open
        }),
{
}

/// A terminal is opened for a chat, behind those it has, while an engine is
/// there; other chats' terminals stay as they were.
pub proof fn a_terminal_is_opened_for_one_chat(
    panel: Panel,
    chat: Seq<char>,
    other: Seq<char>,
)
    requires
        panel.tab_seq < u64::MAX,
    ensures
        ({
            let after = panel.with_tab(chat, true);
            let had = if panel.chats.dom().contains(chat) {
                panel.chats[chat].tabs
            } else {
                Seq::empty()
            };
            &&& after.chats.dom().contains(chat)
            &&& after.chats[chat].tabs.len() == had.len() + 1
            &&& after.chats[chat].tabs.drop_last() == had
            &&& after.chats[chat].tabs.last().key == panel.tab_seq + 1
            &&& other != chat ==> after.chats.dom().contains(other) == panel.chats.dom().contains(
                other,
            ) && (panel.chats.dom().contains(other) ==> after.chats[other] == panel.chats[other])
            &&& after.preedit.text.len() == 0
        }),
        panel.with_tab(chat, false) == panel,
{
    let had = if panel.chats.dom().contains(chat) {
        panel.chats[chat].tabs
    } else {
        Seq::empty()
    };
    assert(panel.with_tab(chat, true).chats[chat].tabs.drop_last() =~= had);
}

/// A shown chat without a terminal gets its first one, and no second; a
/// provider's view gets none that way.
pub proof fn a_shown_chat_gets_one_terminal(panel: Panel, app: App, chat: Seq<char>)
    requires
        panel.tab_seq < u64::MAX,
        panel.chat(app) == Some(chat),
    ensures
        panel.session_view ==> panel.ensured(app) == panel,
        !panel.session_view && panel.chats.dom().contains(chat) && panel.chats[chat].tabs.len() > 0
            ==> panel.ensured(app) == panel,
        !panel.session_view && app.engine && !(panel.chats.dom().contains(chat)
            && panel.chats[chat].tabs.len() > 0) ==> panel.ensured(app).chats[chat].tabs.len() == 1,
{
}

/// A terminal that opened gives its tab its id, and makes a provider's view
/// that was opening ready; what is queued stays queued.
pub proof fn an_attached_terminal_is_ready(
    panel: Panel,
    chat: Seq<char>,
    key: u64,
    id: Seq<char>,
    engine: bool,
)
    requires
        panel.tab(chat, key) is Some,
    ensures
        ({
            let after = panel.attached(chat, key, id, engine);
            &&& after.tab(chat, key) is Some
            &&& after.tab(chat, key)->0 == (Tab {
                terminal_id: Some(id),
                ..panel.tab(chat, key)->0
            })
            &&& panel.session_view && panel.status is Opening ==> after.status is Ready
            &&& !(panel.session_view && panel.status is Opening) ==> after.status == panel.status
        }),
{
    let tabs = panel.chats[chat];
    let tab = Tab { terminal_id: Some(id), ..panel.tab(chat, key)->0 };
    a_tab_is_found_under_its_key(tabs.tabs, key);
    a_changed_tab_is_found_again(tabs, key, tab);
}

proof fn a_changed_tab_is_found_again(tabs: Tabs, key: u64, tab: Tab)
    requires
        tabs.place(key) < tabs.tabs.len(),
        tab.key == key,
    ensures
        tabs.set(tabs.place(key), tab).place(key) == tabs.place(key),
        tabs.set(tabs.place(key), tab).tabs[tabs.place(key)] == tab,
{
    let at = tabs.place(key);
    a_tab_is_found_under_its_key(tabs.tabs, key);
    let after = tabs.set(at, tab);
    a_tab_is_found_under_its_key(after.tabs, key);
    let found = after.place(key);
    if found < at {
        assert(after.tabs[found] == tabs.tabs[found]);
    } else if found > at {
        assert(after.tabs[at].key == key);
    }
}

/// Queued input goes out whole, to its own terminal, and only while input is
/// taken, an engine is there, the terminal is known and its process runs; then
/// nothing is left queued. Otherwise it stays queued.
pub proof fn queued_input_goes_out_whole(
    before: Panel,
    after: Panel,
    chat: Seq<char>,
    key: u64,
    engine: bool,
    write: Option<(String, Vec<u8>)>,
    tab: Tab,
)
    requires
        flushed(before, after, chat, key, engine, write),
        before.tab(chat, key) == Some(tab),
    ensures
        write is Some <==> before.takes_input() && engine && tab.terminal_id is Some && tab.exited
            is None && tab.queued.len() > 0,
        write is Some ==> {
            &&& (write->0).1@ == tab.queued
            &&& Some((write->0).0@) == tab.terminal_id
            &&& after.tab(chat, key) is Some
            &&& after.tab(chat, key)->0.queued.len() == 0
        },
        write is None ==> after.tab(chat, key) == Some(tab),
{
    if write is Some {
        a_tab_is_found_under_its_key(before.chats[chat].tabs, key);
        a_changed_tab_is_found_again(
            before.chats[chat],
            key,
            Tab { queued: Seq::empty(), ..tab },
        );
    }
}

/// A provider's view is released only where it is bound, an engine is there
/// and all input has gone out; then it is closing, takes no more input, and
/// nothing is queued. A refusal says what stands against it.
pub proof fn a_view_is_released_once_its_input_is_out(
    before: Panel,
    after: Panel,
    app: App,
    reply: CloseReply,
    chat: Seq<char>,
)
    requires
        view_closed(before, after, app, reply),
        before.session_chat == Some(chat),
    ensures
        !before.session_view ==> reply is Refused && after == before,
        before.session_view && before.status is Closing && before.session_close ==> reply
            is Shared && after == before,
        before.session_view && !(before.status is Closing && before.session_close) ==> {
            let waits = before.chats.dom().contains(chat) && has_queued(before.chats[chat]);
            &&& !app.engine ==> reply is Refused && after.status == ViewStatus::Failed(
                "Engine is not connected"@,
            )
            &&& app.engine && waits ==> reply is Refused && after == before && reply->Refused_0@
                == "Wait for buffered terminal input before switching views"@
            &&& app.engine && !waits ==> {
                &&& reply is Closing
                &&& reply->Closing_chat@ == chat
                &&& reply->after_open == before.session_open
                &&& after.status is Closing
                &&& after.session_close
                &&& !after.takes_input()
                &&& after.chats.dom().contains(chat) ==> !has_queued(after.chats[chat])
            }
        },
{
}

/// A view that is bound to no chat has nothing to release: it idles at once.
pub proof fn an_unbound_view_closes_at_once(
    before: Panel,
    after: Panel,
    app: App,
    reply: CloseReply,
)
    requires
        view_closed(before, after, app, reply),
        before.session_view,
        before.session_chat is None,
        !(before.status is Closing && before.session_close),
    ensures
        reply is Done,
        after.status is Idle,
{
}

/// Input is queued in some tab until it is stopped.
pub proof fn stopped_tabs_hold_nothing(tabs: Tabs, i: int)
    requires
        0 <= i < tabs.tabs.len(),
    ensures
        !has_queued(stopped(tabs)),
        stopped(tabs).tabs[i] == (Tab { queued: Seq::empty(), ..tabs.tabs[i] }),
        stopped(tabs).active == tabs.active,
        tabs.tabs[i].queued.len() > 0 ==> has_queued(tabs),
{
}

/// A closed tab is gone and its terminal is released; the last one closes an
/// open drawer. One that is not there closes nothing, and a provider's view
/// closes as a whole.
pub proof fn a_closed_tab_releases_its_terminal(
    before: Panel,
    after: Panel,
    app: App,
    chat: Seq<char>,
    key: u64,
    reply: CloseTabReply,
)
    requires
        tab_closed(before, after, app, chat, key, reply),
    ensures
        before.session_view ==> reply is Session,
        !before.session_view && before.tab(chat, key) is None ==> reply is Nothing && after
            == before,
        !before.session_view && before.tab(chat, key) is Some ==> {
            let tab = before.tab(chat, key)->0;
            let had = before.chats[chat].tabs;
            &&& reply is Closed
            &&& after.chats[chat].tabs.len() == had.len() - 1
            &&& after.chats[chat].tabs == had.remove(before.chats[chat].place(key))
            &&& app.engine ==> reply->release.deep_view() == tab.terminal_id
            &&& !app.engine ==> reply->release is None
            &&& reply->toggle_drawer <==> had.len() == 1 && before.open && !before.embedded
            &&& after.drag is None
        },
{
    if !before.session_view && before.tab(chat, key) is Some {
        a_tab_is_found_under_its_key(before.chats[chat].tabs, key);
    }
}

/// A chat's requests are meant for its host, unless that is the engine's own
/// device.
pub proof fn requests_go_to_the_chats_host(app: AppView, chat: Seq<char>, at: int)
    requires
        0 <= at <= app.chats@.len(),
        forall|i: int| 0 <= i < at ==> (#[trigger] app.chats@[i]).id@ != chat,
        at < app.chats@.len() ==> app.chats@[at].id@ == chat,
    ensures
        at == app.chats@.len() ==> host_of(app, chat) is None,
        at < app.chats@.len() ==> host_of(app, chat) == (if app.local_device_id.deep_view() == Some(
            app.chats@[at].device_id@,
        ) {
            None
        } else {
            Some(app.chats@[at].device_id@)
        }),
{
    the_first_host_counts(app.chats@, chat, at);
}

proof fn the_first_host_counts(chats: Seq<ChatHost>, chat: Seq<char>, at: int)
    requires
        0 <= at <= chats.len(),
        forall|i: int| 0 <= i < at ==> (#[trigger] chats[i]).id@ != chat,
        at < chats.len() ==> chats[at].id@ == chat,
    ensures
        first_host(chats, chat) == (if at < chats.len() {
            Some(chats[at].device_id@)
        } else {
            None
        }),
    decreases at,
{
    if at > 0 {
        assert(chats[0].id@ != chat);
        let rest = chats.subrange(1, chats.len() as int);
        assert forall|i: int| 0 <= i < at - 1 implies (#[trigger] rest[i]).id@ != chat by {
            assert(rest[i] == chats[i + 1]);
        }
        the_first_host_counts(rest, chat, at - 1);
    }
}

/// While a tab is dragged its own room is kept, and every other slides from
/// where the last place put it to where this one would.
pub proof fn tabs_slide_around_a_dragged_one(drag: DragState, ix: int)
    requires
        0 <= ix <= i8::MAX,
        drag.from <= i8::MAX && drag.over <= i8::MAX && drag.prev_over <= i8::MAX,
    ensures
        slot_of(ix, None) is Plain,
        ix == drag.from ==> slot_of(ix, Some(drag)) is Spacer,
        ix != drag.from ==> {
            &&& slot_of(ix, Some(drag)) is Sliding
            &&& ix + slot_of(ix, Some(drag))->target == place_after_reorder(
                ix,
                drag.from as int,
                drag.over as int,
            )
            &&& ix + slot_of(ix, Some(drag))->start == place_after_reorder(
                ix,
                drag.from as int,
                drag.prev_over as int,
            )
        },
{
}

/// A drag keeps where it began; over a new place it slides on from the last
/// one, anew, and over the same place nothing changes.
pub proof fn a_drag_slides_on_from_the_last_place(
    drag: DragState,
    from: usize,
    over: usize,
)
    requires
        drag.epoch < usize::MAX,
    ensures
        dragged_over(None, from, over).from == from,
        dragged_over(None, from, over).over == over,
        dragged_over(None, from, over).prev_over == from,
        dragged_over(Some(drag), from, over).from == drag.from,
        dragged_over(Some(drag), from, over).over == over,
        over != drag.over ==> dragged_over(Some(drag), from, over).prev_over == drag.over
            && dragged_over(Some(drag), from, over).epoch == drag.epoch + 1,
        over == drag.over ==> dragged_over(Some(drag), from, over) == drag,
{
}

/// The strip shows each terminal of its chat in order, the shown one selected.
pub proof fn a_strip_shows_its_tabs(panel: Panel, chat: Seq<char>, cells: Seq<TabCell>, i: int)
    requires
        strip_of(panel, chat, cells),
        panel.chats.dom().contains(chat),
        0 <= i < cells.len(),
    ensures
        cells.len() == panel.chats[chat].tabs.len(),
        cells[i].key == panel.chats[chat].tabs[i].key,
        cells[i].title@ == panel.chats[chat].tabs[i].label(),
        cells[i].selected <==> panel.chats[chat].active == i,
        cells[i].exited <==> panel.chats[chat].tabs[i].exited is Some,
{
}

/// A fresh panel is closed, bound to nothing and empty.
pub proof fn a_fresh_panel_is_empty(chat: Seq<char>)
    ensures
        !Panel::fresh().open && !Panel::fresh().session_view && !Panel::fresh().embedded,
        Panel::fresh().status is Idle,
        !Panel::fresh().chats.dom().contains(chat),
        Panel::fresh().session_chat is None && Panel::fresh().tab_seq == 0,
        Panel::fresh().drag is None && Panel::fresh().preedit.text.len() == 0,
{
}

/// A move to or from a place that is not there, or to the tab's own, changes
/// nothing.
pub proof fn a_move_to_nowhere_changes_nothing<T>(items: Seq<T>, from: int, to: int)
    ensures
        from == to || from < 0 || from >= items.len() || to < 0 || to >= items.len() ==> moved(
            items,
            from,
            to,
        ) == items,
{
}

} // verus!
