//! What a terminal asks of the engine: the method and the parameters of each
//! request, addressed to the device that runs the terminal.
use vstd::prelude::*;
use crate::codec::{encode_base64, standard_base64};
use crate::json::{
    add_member, all_members, members_in_place, members_pushed, text, value_of, Json, Value,
};
use crate::terminal_tabs::{key_place, with_target};

verus! {

/// The size a terminal is opened with where its tab is gone.
pub const DEFAULT_COLS: u16 = 80;

pub const DEFAULT_ROWS: u16 = 24;

/// Parameters, and the device they are meant for where it is another one.
pub open spec fn addressed(
    members: Seq<(Seq<char>, Value)>,
    target: Option<Seq<char>>,
) -> Value {
    Value::Object(
        match target {
            Some(device) => members.push(("targetDeviceId"@, Value::Text(device))),
            None => members,
        },
    )
}

/// None of the other parameters is called like the one that names the device.
proof fn no_parameter_names_the_device()
    ensures
        "chatId"@ != "targetDeviceId"@,
        "terminalId"@ != "targetDeviceId"@,
        "cols"@ != "targetDeviceId"@,
        "rows"@ != "targetDeviceId"@,
        "afterSeq"@ != "targetDeviceId"@,
        "data"@ != "targetDeviceId"@,
{
    reveal_strlit("targetDeviceId");
    reveal_strlit("chatId");
    reveal_strlit("terminalId");
    reveal_strlit("cols");
    reveal_strlit("rows");
    reveal_strlit("afterSeq");
    reveal_strlit("data");
    assert("targetDeviceId"@.len() == 14);
    assert("chatId"@.len() == 6 && "terminalId"@.len() == 10 && "afterSeq"@.len() == 8);
    assert("cols"@.len() == 4 && "rows"@.len() == 4 && "data"@.len() == 4);
}

/// A key that no member has stands behind all of them.
proof fn absent_key_is_last(members: Seq<(String, Json)>, key: Seq<char>)
    requires
        forall|i: int| 0 <= i < members.len() ==> (#[trigger] members[i]).0@ != key,
    ensures
        key_place(members, key) == members.len(),
    decreases members.len(),
{
    if members.len() > 0 {
        let rest = members.subrange(1, members.len() as int);
        assert(members[0].0@ != key);
        assert forall|i: int| 0 <= i < rest.len() implies (#[trigger] rest[i]).0@ != key by {
            assert(rest[i] == members[i + 1]);
        }
        absent_key_is_last(rest, key);
    }
}

/// Addresses parameters that name no device yet.
fn address(members: Vec<(String, Json)>, target: &Option<String>) -> (r: Json)
    requires
        forall|i: int|
            0 <= i < all_members(members@).len() ==> (#[trigger] all_members(members@)[i]).0
                != "targetDeviceId"@,
    ensures
        value_of(r) == addressed(all_members(members@), target.deep_view()),
{
    let ghost before = members@;
    let r: Json = with_target(Json::Object(members), target);
    proof {
        members_in_place(before, before.len());
        assert forall|i: int| 0 <= i < before.len() implies (#[trigger] before[i]).0@
            != "targetDeviceId"@ by {
            assert(all_members(before)[i].0 == before[i].0@);
        }
        absent_key_is_last(before, "targetDeviceId"@);
        if target is Some {
            let last = r->Object_0@[before.len() as int];
            assert(r->Object_0@ =~= before.push(last));
            members_pushed(before, last);
        }
    }
    r
}

/// The parameters of an open request.
pub open spec fn open_members(chat: Seq<char>, cols: u16, rows: u16) -> Seq<(Seq<char>, Value)> {
    seq![
        ("chatId"@, Value::Text(chat)),
        ("cols"@, Value::Unsigned(cols as u64)),
        ("rows"@, Value::Unsigned(rows as u64)),
    ]
}

/// Opens a chat's terminal at the size of its tab, or a provider's own terminal
/// of the session for a session view.
pub fn open_request(
    session_view: bool,
    chat: &str,
    size: Option<(u16, u16)>,
    target: &Option<String>,
) -> (r: (&'static str, Json))
    ensures
        r.0@ == (if session_view {
            "OpenSessionTerminal"@
        } else {
            "OpenTerminal"@
        }),
        ({
            let (cols, rows) = match size {
                Some(size) => size,
                None => (DEFAULT_COLS, DEFAULT_ROWS),
            };
            value_of(r.1) == addressed(open_members(chat@, cols, rows), target.deep_view())
        }),
{
    let (cols, rows): (u16, u16) = match size {
        Some(size) => size,
        None => (DEFAULT_COLS, DEFAULT_ROWS),
    };
    let method: &'static str = if session_view {
        "OpenSessionTerminal"
    } else {
        "OpenTerminal"
    };
    let mut members: Vec<(String, Json)> = Vec::new();
    add_member(&mut members, "chatId", text(chat));
    add_member(&mut members, "cols", Json::Unsigned(cols as u64));
    add_member(&mut members, "rows", Json::Unsigned(rows as u64));
    proof {
        assert(all_members(members@) =~= open_members(chat@, cols, rows));
        no_parameter_names_the_device();
    }
    (method, address(members, target))
}

/// The parameters of a subscribe request.
pub open spec fn subscribe_members(id: Seq<char>, after: u64) -> Seq<(Seq<char>, Value)> {
    seq![("terminalId"@, Value::Text(id)), ("afterSeq"@, Value::Unsigned(after))]
}

/// Asks for the frames of a terminal behind the last one that was applied.
pub fn subscribe_request(id: &str, after: u64, target: &Option<String>) -> (r: (
    &'static str,
    Json,
))
    ensures
        r.0@ == "SubscribeTerminal"@,
        value_of(r.1) == addressed(subscribe_members(id@, after), target.deep_view()),
{
    let mut members: Vec<(String, Json)> = Vec::new();
    add_member(&mut members, "terminalId", text(id));
    add_member(&mut members, "afterSeq", Json::Unsigned(after));
    proof {
        assert(all_members(members@) =~= subscribe_members(id@, after));
        no_parameter_names_the_device();
    }
    ("SubscribeTerminal", address(members, target))
}

/// The parameters of a resize request.
pub open spec fn resize_members(id: Seq<char>, cols: usize, rows: usize) -> Seq<
    (Seq<char>, Value),
> {
    seq![
        ("terminalId"@, Value::Text(id)),
        ("cols"@, Value::Unsigned(cols as u64)),
        ("rows"@, Value::Unsigned(rows as u64)),
    ]
}

/// Tells a terminal its size.
pub fn resize_request(id: &str, cols: usize, rows: usize, target: &Option<String>) -> (r: (
    &'static str,
    Json,
))
    ensures
        r.0@ == "ResizeTerminal"@,
        value_of(r.1) == addressed(resize_members(id@, cols, rows), target.deep_view()),
{
    let mut members: Vec<(String, Json)> = Vec::new();
    add_member(&mut members, "terminalId", text(id));
    add_member(&mut members, "cols", Json::Unsigned(cols as u64));
    add_member(&mut members, "rows", Json::Unsigned(rows as u64));
    proof {
        assert(all_members(members@) =~= resize_members(id@, cols, rows));
        no_parameter_names_the_device();
    }
    ("ResizeTerminal", address(members, target))
}

/// The parameters of a write request.
pub open spec fn write_members(id: Seq<char>, data: Seq<char>) -> Seq<(Seq<char>, Value)> {
    seq![("terminalId"@, Value::Text(id)), ("data"@, Value::Text(data))]
}

/// Writes input to a terminal, as base64.
pub fn write_request(id: &str, bytes: &[u8], target: &Option<String>) -> (r: (&'static str, Json))
    ensures
        r.0@ == "WriteTerminal"@,
        value_of(r.1) == addressed(
            write_members(id@, standard_base64(bytes@)),
            target.deep_view(),
        ),
{
    let data: String = encode_base64(bytes);
    let mut members: Vec<(String, Json)> = Vec::new();
    add_member(&mut members, "terminalId", text(id));
    add_member(&mut members, "data", text(data.as_str()));
    proof {
        assert(all_members(members@) =~= write_members(id@, data@));
        no_parameter_names_the_device();
    }
    ("WriteTerminal", address(members, target))
}

/// Releases a terminal.
pub fn close_request(id: &str, target: &Option<String>) -> (r: (&'static str, Json))
    ensures
        r.0@ == "CloseTerminal"@,
        value_of(r.1) == addressed(
            seq![("terminalId"@, Value::Text(id@))],
            target.deep_view(),
        ),
{
    let mut members: Vec<(String, Json)> = Vec::new();
    add_member(&mut members, "terminalId", text(id));
    proof {
        assert(all_members(members@) =~= seq![("terminalId"@, Value::Text(id@))]);
        no_parameter_names_the_device();
    }
    ("CloseTerminal", address(members, target))
}

/// Gives a session's own terminal back.
pub fn close_session_request(chat: &str, target: &Option<String>) -> (r: (&'static str, Json))
    ensures
        r.0@ == "CloseSessionTerminal"@,
        value_of(r.1) == addressed(seq![("chatId"@, Value::Text(chat@))], target.deep_view()),
{
    let mut members: Vec<(String, Json)> = Vec::new();
    add_member(&mut members, "chatId", text(chat));
    proof {
        assert(all_members(members@) =~= seq![("chatId"@, Value::Text(chat@))]);
        no_parameter_names_the_device();
    }
    ("CloseSessionTerminal", address(members, target))
}

} // verus!
