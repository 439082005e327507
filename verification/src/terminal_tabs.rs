//! The terminal's tab strip, titles and byte sequences.
use vstd::prelude::*;
use vstd::utf8::{encode_scalar, encode_utf8};
use crate::json::Json;
use crate::text::{
    chars_of, decimal, decimal_text, join3, same_text, signed_decimal, signed_text, string_of,
    trim_range, trimmed,
};

verus! {

/// Reconnect backoff: 500 ms doubling to an 8 s ceiling.
pub open spec fn backoff(attempt: nat) -> nat {
    if attempt == 0 {
        500
    } else if attempt == 1 {
        1000
    } else if attempt == 2 {
        2000
    } else if attempt == 3 {
        4000
    } else {
        8000
    }
}

pub fn backoff_ms(attempt: u32) -> (r: u64)
    ensures
        r == backoff(attempt as nat),
{
    let shift: u32 = if attempt < 4 {
        attempt
    } else {
        4
    };
    let delay: u64 = match shift {
        0 => 500,
        1 => 500 * 2,
        2 => 500 * 4,
        3 => 500 * 8,
        _ => 500 * 16,
    };
    if delay < 8_000 {
        delay
    } else {
        8_000
    }
}

/// The wait never shrinks while attempts fail, doubles until the ceiling, and
/// never passes it.
pub proof fn backoff_doubles_to_its_ceiling(attempt: nat)
    ensures
        500 <= backoff(attempt) <= 8000,
        backoff(attempt) <= backoff(attempt + 1),
        attempt < 4 ==> backoff(attempt + 1) == 2 * backoff(attempt),
{
}

/// A list with one item moved. Places out of range leave it as it was.
pub open spec fn moved<T>(items: Seq<T>, from: int, to: int) -> Seq<T> {
    if 0 <= from < items.len() && 0 <= to < items.len() && from != to {
        items.remove(from).insert(to, items[from])
    } else {
        items
    }
}

/// Moves a tab from `from` to `to` (indices into the same list).
pub fn reorder_tabs<T>(tabs: &mut Vec<T>, from: usize, to: usize)
    ensures
        final(tabs)@ == moved(old(tabs)@, from as int, to as int),
{
    if from >= tabs.len() || to >= tabs.len() || from == to {
        return;
    }
    let tab = tabs.remove(from);
    tabs.insert(to, tab);
}

/// How far, in tab widths, a tab slides while `from` is dragged over `over`:
/// the tabs between the two shift one slot toward the vacated gap.
pub open spec fn slide(ix: int, from: int, over: int) -> int {
    if from < ix <= over {
        -1
    } else if over <= ix < from {
        1
    } else {
        0
    }
}

pub fn slide_offset(ix: usize, from: usize, over: usize) -> (r: i8)
    ensures
        r == slide(ix as int, from as int, over as int),
{
    if from < over && ix > from && ix <= over {
        -1
    } else if over < from && ix >= over && ix < from {
        1
    } else {
        0
    }
}

/// Where a tab stands after a reorder.
pub open spec fn place_after_reorder(at: int, from: int, to: int) -> int {
    if at == from {
        to
    } else {
        at + slide(at, from, to)
    }
}

/// Active index after a reorder commit.
pub fn active_after_reorder(active: usize, from: usize, to: usize) -> (r: usize)
    ensures
        r == place_after_reorder(active as int, from as int, to as int),
{
    if active == from {
        to
    } else if from < active && to >= active {
        active - 1
    } else if from > active && to <= active {
        active + 1
    } else {
        active
    }
}

/// Active index after closing one tab: the same tab where it is still there,
/// else the one that took its place, or the last.
pub open spec fn place_after_close(active: int, closed: int, len_after: int) -> int {
    let shifted = if closed < active {
        active - 1
    } else {
        active
    };
    if len_after == 0 {
        0
    } else if shifted < len_after {
        shifted
    } else {
        len_after - 1
    }
}

pub fn active_after_close(active: usize, closed: usize, len_after: usize) -> (r: usize)
    ensures
        r == place_after_close(active as int, closed as int, len_after as int),
{
    let shifted: usize = if closed < active {
        active - 1
    } else {
        active
    };
    if len_after == 0 {
        0
    } else if shifted < len_after {
        shifted
    } else {
        len_after - 1
    }
}

/// A reorder keeps every tab, and the active index follows its tab.
pub proof fn the_active_tab_follows_a_reorder<T>(items: Seq<T>, from: int, to: int, active: int)
    requires
        0 <= from < items.len(),
        0 <= to < items.len(),
        0 <= active < items.len(),
    ensures
        moved(items, from, to).len() == items.len(),
        0 <= place_after_reorder(active, from, to) < items.len(),
        moved(items, from, to)[place_after_reorder(active, from, to)] == items[active],
{
}

/// A reorder keeps the tabs as a collection.
pub proof fn a_reorder_keeps_every_tab<T>(items: Seq<T>, from: int, to: int)
    ensures
        moved(items, from, to).to_multiset() == items.to_multiset(),
{
    broadcast use vstd::seq_lib::group_to_multiset_ensures;

    if 0 <= from < items.len() && 0 <= to < items.len() && from != to {
        let rest = items.remove(from);
        assert(rest.to_multiset() =~= items.to_multiset().remove(items[from]));
        assert(rest.insert(to, items[from]).to_multiset() =~= rest.to_multiset().insert(
            items[from],
        ));
        assert(items.to_multiset().contains(items[from])) by {
            assert(items.contains(items[from]));
        }
        assert(rest.to_multiset().insert(items[from]) =~= items.to_multiset());
    }
}

/// While a tab is dragged, every other tab slides to where a drop would put
/// it.
pub proof fn slides_preview_the_drop(ix: int, from: int, over: int)
    requires
        ix != from,
    ensures
        ix + slide(ix, from, over) == place_after_reorder(ix, from, over),
{
}

/// Closing another tab keeps the active one active, and closing any tab
/// leaves the active index on a tab while there is one.
pub proof fn the_active_tab_survives_a_close<T>(items: Seq<T>, active: int, closed: int)
    requires
        0 <= active < items.len(),
        0 <= closed < items.len(),
    ensures
        items.len() > 1 ==> 0 <= place_after_close(active, closed, items.len() - 1) < items.len()
            - 1,
        active != closed ==> items.remove(closed)[place_after_close(
            active,
            closed,
            items.len() - 1,
        )] == items[active],
{
}

/// The trailer of an exited process, dimmed.
pub open spec fn exit_text(code: int) -> Seq<char> {
    "\r\n\x1b[90m[process exited "@ + signed_text(code) + "]\x1b[0m\r\n"@
}

pub fn exit_message(code: i32) -> (r: Vec<u8>)
    ensures
        r@ == encode_utf8(exit_text(code as int)),
{
    let number: String = signed_decimal(code as i64);
    let text: String = join3(
        "\r\n\x1b[90m[process exited ",
        number.as_str(),
        "]\x1b[0m\r\n",
    );
    vstd::slice::slice_to_vec(text.as_str().as_bytes())
}

/// Where the last component of a path begins.
pub open spec fn last_component(path: Seq<char>) -> int
    decreases path.len(),
{
    if path.len() == 0 {
        0
    } else if path.last() == '/' || path.last() == '\\' {
        path.len() as int
    } else {
        last_component(path.drop_last())
    }
}

/// A tab's title from its shell's path.
pub open spec fn title_of_shell(shell: Seq<char>) -> Seq<char> {
    let name = trimmed(shell.subrange(last_component(shell), shell.len() as int));
    if name.len() == 0 {
        "terminal"@
    } else {
        name
    }
}

/// Tab title from the session's shell path ("/bin/zsh" → "zsh").
pub fn shell_title(shell: &str) -> (r: String)
    ensures
        r@ == title_of_shell(shell@),
{
    let chars: Vec<char> = chars_of(shell);
    let mut start: usize = chars.len();
    proof {
        assert(chars@.take(start as int) =~= chars@);
    }
    while start > 0 && chars[start - 1] != '/' && chars[start - 1] != '\\'
        invariant
            start <= chars@.len(),
            chars@ == shell@,
            last_component(shell@) == last_component(chars@.take(start as int)),
        decreases start,
    {
        proof {
            let front = chars@.take(start as int);
            assert(front.drop_last() =~= chars@.take(start - 1));
        }
        start -= 1;
    }
    proof {
        if start > 0 {
            assert(chars@.take(start as int).last() == chars@[start - 1]);
        }
        assert(last_component(shell@) == start);
    }
    let bounds: (usize, usize) = trim_range(chars.as_slice(), start, chars.len());
    if bounds.0 == bounds.1 {
        "terminal".to_owned()
    } else {
        string_of(chars.as_slice(), bounds.0, bounds.1)
    }
}

/// One legacy mouse coordinate, offset past the control characters.
pub open spec fn legacy_coordinate(at: int, utf8: bool) -> Seq<u8> {
    if utf8 {
        encode_scalar((at + 33) as u32)
    } else {
        seq![(at + 33) as u8]
    }
}

/// Whether the legacy protocols address a cell.
pub open spec fn wheel_reaches(col: int, row: int, utf8: bool) -> bool {
    let reach = if utf8 {
        2015int
    } else {
        223
    };
    col < reach && row < reach
}

/// A wheel report: the extended protocol takes any cell; the legacy ones only
/// reach so far, and drop what lies past it.
pub open spec fn wheel_report(button: int, col: int, row: int, sgr: bool, utf8: bool) -> Option<
    Seq<u8>,
> {
    if sgr {
        Some(
            encode_utf8(
                "\x1b[<"@ + decimal_text(button as nat) + ";"@ + decimal_text((col + 1) as nat)
                    + ";"@ + decimal_text((row + 1) as nat) + "M"@,
            ),
        )
    } else if !wheel_reaches(col, row, utf8) {
        None
    } else {
        Some(
            seq![0x1bu8, 0x5b, 0x4d, (button + 32) as u8] + legacy_coordinate(col, utf8)
                + legacy_coordinate(row, utf8),
        )
    }
}

fn push_coordinate(out: &mut Vec<u8>, at: usize, utf8: bool)
    requires
        at < 2015,
        !utf8 ==> at < 223,
    ensures
        final(out)@ == old(out)@ + legacy_coordinate(at as int, utf8),
{
    let ghost before = out@;
    let scalar: u32 = at as u32 + 33;
    if !utf8 {
        out.push(scalar as u8);
        proof {
            assert(out@ =~= before + seq![scalar as u8]);
        }
    } else if scalar < 0x80 {
        proof {
            assert((scalar & 0x7f) == scalar) by (bit_vector)
                requires
                    scalar < 0x80,
            ;
        }
        out.push((scalar & 0x7f) as u8);
        proof {
            assert(out@ =~= before + encode_scalar(scalar));
        }
    } else {
        out.push(0xc0u8 | ((scalar >> 6) & 0x1f) as u8);
        out.push(0x80u8 | (scalar & 0x3f) as u8);
        proof {
            assert(out@ =~= before + encode_scalar(scalar));
        }
    }
}

/// The bytes of one wheel step, or `None` where the protocol cannot address
/// the cell.
pub fn wheel_mouse_bytes(button: u8, col: usize, row: usize, sgr: bool, utf8: bool) -> (r: Option<
    Vec<u8>,
>)
    requires
        sgr ==> col < usize::MAX && row < usize::MAX,
        !sgr && wheel_reaches(col as int, row as int, utf8) ==> button <= 223,
    ensures
        (match r {
            Some(bytes) => wheel_report(button as int, col as int, row as int, sgr, utf8) == Some(
                bytes@,
            ),
            None => wheel_report(button as int, col as int, row as int, sgr, utf8) is None,
        }),
{
    if sgr {
        let mut text: String = "\x1b[<".to_owned();
        let number: String = decimal(button as u64);
        text.append(number.as_str());
        text.append(";");
        let across: String = decimal((col + 1) as u64);
        text.append(across.as_str());
        text.append(";");
        let down: String = decimal((row + 1) as u64);
        text.append(down.as_str());
        text.append("M");
        return Some(vstd::slice::slice_to_vec(text.as_str().as_bytes()));
    }
    let reach: usize = if utf8 {
        2015
    } else {
        223
    };
    if col >= reach || row >= reach {
        return None;
    }
    let mut bytes: Vec<u8> = vec![0x1b, 0x5b, 0x4d, button + 32];
    push_coordinate(&mut bytes, col, utf8);
    push_coordinate(&mut bytes, row, utf8);
    Some(bytes)
}

/// Some bytes again and again.
pub open spec fn repeated(bytes: Seq<u8>, times: nat) -> Seq<u8>
    decreases times,
{
    if times == 0 {
        Seq::empty()
    } else {
        repeated(bytes, (times - 1) as nat) + bytes
    }
}

pub fn repeat_bytes(bytes: &Vec<u8>, times: u32) -> (r: Vec<u8>)
    ensures
        r@ == repeated(bytes@, times as nat),
{
    let mut out: Vec<u8> = Vec::new();
    let mut i: u32 = 0;
    while i < times
        invariant
            i <= times,
            out@ == repeated(bytes@, i as nat),
        decreases times - i,
    {
        let mut k: usize = 0;
        let ghost before = out@;
        while k < bytes.len()
            invariant
                k <= bytes@.len(),
                out@ == before + bytes@.take(k as int),
            decreases bytes@.len() - k,
        {
            out.push(bytes[k]);
            k += 1;
            proof {
                assert(bytes@.take(k as int) =~= bytes@.take(k - 1).push(bytes@[k - 1]));
            }
        }
        proof {
            assert(bytes@.take(k as int) =~= bytes@);
        }
        i += 1;
    }
    out
}

/// What a wheel step means for a terminal.
pub enum WheelStep {
    /// Bytes for the running program.
    Report(Vec<u8>),
    /// The terminal scrolls its own history.
    Scroll(i32),
    /// Nothing to send.
    Drop,
}

/// How the running program takes the wheel.
#[derive(Debug, Clone, Copy, PartialEq, Eq, Structural)]
pub struct WheelMode {
    pub mouse_reporting: bool,
    pub sgr: bool,
    pub utf8: bool,
    pub alternate_scroll: bool,
    pub app_cursor: bool,
}

/// The modifiers held during a wheel step.
#[derive(Debug, Clone, Copy, PartialEq, Eq, Structural)]
pub struct WheelModifiers {
    pub shift: bool,
    pub alt: bool,
    pub control: bool,
}

/// The button of a wheel report.
pub open spec fn wheel_button(up: bool, modifiers: WheelModifiers) -> int {
    (if up {
        64int
    } else {
        65
    }) + (if modifiers.alt {
        8int
    } else {
        0
    }) + (if modifiers.control {
        16int
    } else {
        0
    })
}

/// The arrow key that stands for a wheel step on an alternate screen.
pub open spec fn arrow_bytes(up: bool, app_cursor: bool) -> Seq<u8> {
    seq![
        0x1bu8,
        if app_cursor {
            0x4fu8
        } else {
            0x5bu8
        },
        if up {
            0x41u8
        } else {
            0x42u8
        },
    ]
}

/// Whole lines of a step.
pub open spec fn step_size(step: int) -> nat {
    if step < 0 {
        (-step) as nat
    } else {
        step as nat
    }
}

/// Routes a step of whole lines: a program that reports the mouse gets the
/// wheel at the pointed cell, one on an alternate screen gets arrow keys, and
/// everything else scrolls the history. Shift keeps the wheel for the history.
/// `cell` is the pointed column and row, once the grid is placed.
pub fn route_wheel(
    step: i32,
    mode: WheelMode,
    modifiers: WheelModifiers,
    cell: Option<(u16, u16)>,
) -> (r: WheelStep)
    requires
        -120 <= step <= 120,
        step != 0,
    ensures
        mode.mouse_reporting && !modifiers.shift ==> match cell {
            None => r is Drop,
            Some(at) => match wheel_report(
                wheel_button(step > 0, modifiers),
                at.0 as int,
                at.1 as int,
                mode.sgr,
                mode.utf8,
            ) {
                None => r is Drop,
                Some(bytes) => r is Report && r->Report_0@ == repeated(
                    bytes,
                    step_size(step as int),
                ),
            },
        },
        !(mode.mouse_reporting && !modifiers.shift) && mode.alternate_scroll && !modifiers.shift
            ==> r is Report && r->Report_0@ == repeated(
            arrow_bytes(step > 0, mode.app_cursor),
            step_size(step as int),
        ),
        modifiers.shift || !(mode.mouse_reporting || mode.alternate_scroll) ==> r
            == WheelStep::Scroll(step),
{
    let size: u32 = if step < 0 {
        (-step) as u32
    } else {
        step as u32
    };
    if mode.mouse_reporting && !modifiers.shift {
        match cell {
            None => WheelStep::Drop,
            Some(at) => {
                let base: u8 = if step > 0 {
                    64
                } else {
                    65
                };
                let alt: u8 = if modifiers.alt {
                    8
                } else {
                    0
                };
                let control: u8 = if modifiers.control {
                    16
                } else {
                    0
                };
                let button: u8 = base + alt + control;
                match wheel_mouse_bytes(
                    button,
                    at.0 as usize,
                    at.1 as usize,
                    mode.sgr,
                    mode.utf8,
                ) {
                    None => WheelStep::Drop,
                    Some(bytes) => WheelStep::Report(repeat_bytes(&bytes, size)),
                }
            },
        }
    } else if mode.alternate_scroll && !modifiers.shift {
        let middle: u8 = if mode.app_cursor {
            0x4f
        } else {
            0x5b
        };
        let last: u8 = if step > 0 {
            0x41
        } else {
            0x42
        };
        let bytes: Vec<u8> = vec![0x1b, middle, last];
        proof {
            assert(bytes@ =~= arrow_bytes(step > 0, mode.app_cursor));
        }
        WheelStep::Report(repeat_bytes(&bytes, size))
    } else {
        WheelStep::Scroll(step)
    }
}

/// The first place of a key among members, or their number.
pub open spec fn key_place(members: Seq<(String, Json)>, key: Seq<char>) -> int
    decreases members.len(),
{
    if members.len() == 0 {
        0
    } else if members[0].0@ == key {
        0
    } else {
        1 + key_place(members.subrange(1, members.len() as int), key)
    }
}

/// Adds the device a request is meant for, replacing one that is already
/// named. Requests for the engine's own device stay as they are.
pub fn with_target(params: Json, target: &Option<String>) -> (r: Json)
    ensures
        target is None || !(params is Object) ==> r == params,
        target is Some && params is Object ==> {
            let before = params->Object_0@;
            let at = key_place(before, "targetDeviceId"@);
            &&& r is Object
            &&& 0 <= at <= before.len()
            &&& r->Object_0@.len() == (if at < before.len() {
                before.len()
            } else {
                before.len() + 1
            })
            &&& forall|i: int|
                0 <= i < before.len() && i != at ==> (#[trigger] r->Object_0@[i]) == before[i]
            &&& r->Object_0@[at].0@ == "targetDeviceId"@
            &&& r->Object_0@[at].1 is Text
            &&& r->Object_0@[at].1->Text_0@ == target->0@
        },
{
    let device: String = match target {
        Some(device) => device.clone(),
        None => return params,
    };
    match params {
        Json::Object(members) => {
            let mut members: Vec<(String, Json)> = members;
            let ghost before = members@;
            let mut at: usize = 0;
            proof {
                assert(before.subrange(0, before.len() as int) =~= before);
            }
            while at < members.len() && !same_text(members[at].0.as_str(), "targetDeviceId")
                invariant
                    members@ == before,
                    at <= before.len(),
                    key_place(before, "targetDeviceId"@) == at + key_place(
                        before.subrange(at as int, before.len() as int),
                        "targetDeviceId"@,
                    ),
                decreases before.len() - at,
            {
                proof {
                    let rest = before.subrange(at as int, before.len() as int);
                    assert(rest.subrange(1, rest.len() as int) =~= before.subrange(
                        at + 1,
                        before.len() as int,
                    ));
                }
                at += 1;
            }
            proof {
                assert(key_place(before, "targetDeviceId"@) == at);
            }
            let entry: (String, Json) = ("targetDeviceId".to_owned(), Json::Text(device));
            if at < members.len() {
                members.set(at, entry);
            } else {
                members.push(entry);
            }
            Json::Object(members)
        },
        other => other,
    }
}

} // verus!
