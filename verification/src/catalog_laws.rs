//! What holds of the catalog of voice actions: what asks first, and what each
//! action calls.
use vstd::prelude::*;
use crate::action_catalog::{
    catalog_rows, device_rows, file_rows, panel_rows, queue_rows, repository_rows, session_rows,
    terminal_rows,
};
use crate::voice_actions::{Method, Row, Target};

verus! {

/// It changes something on a device that cannot simply be taken back.
pub open spec fn is_grave(method: Method) -> bool {
    match method {
        Method::SwitchRef => true,
        Method::DeleteWorktree => true,
        Method::WriteWorkspaceFile => true,
        Method::RunProjectAction => true,
        Method::WriteTerminal => true,
        Method::CloseTerminal => true,
        _ => false,
    }
}

/// It only reads.
pub open spec fn only_reads(method: Method) -> bool {
    match method {
        Method::ListAgentAccounts => true,
        Method::ListBranches => true,
        Method::ListCommands => true,
        Method::ListFolders => true,
        Method::ListHarnesses => true,
        Method::ListModels => true,
        Method::ListProjectActions => true,
        Method::ListRefs => true,
        Method::ListRepos => true,
        Method::ListWorkspaceDirectory => true,
        Method::ReadWorkspaceFile => true,
        Method::SearchFiles => true,
        Method::WatchDocMessages => true,
        Method::WatchQueue => true,
        _ => false,
    }
}

/// A row asks first exactly where what it calls is grave, and a snapshot calls
/// what only reads.
spec fn asks_rightly(row: Row) -> bool {
    match row.target {
        Target::Rpc(method) => {
            &&& row.confirm <==> is_grave(method)
            &&& !(method is WatchDocMessages) && !(method is WatchQueue)
        },
        Target::Snapshot(method) => {
            &&& !row.confirm
            &&& method is WatchDocMessages || method is WatchQueue
        },
        Target::Mutation(op) => row.confirm <==> op@ == "deleteChat"@ || op@ == "deleteSpace"@
            || op@ == "setChatConfig"@,
        Target::Ui => row.confirm <==> row.name@ == "set_composer_text"@ || row.name@
            == "dispatch_native_action"@,
    }
}

proof fn session_actions_ask_rightly(i: int)
    requires
        0 <= i < session_rows().len(),
    ensures
        asks_rightly(session_rows()[i]),
{
    reveal_strlit("deleteChat");
    reveal_strlit("deleteSpace");
    reveal_strlit("setChatConfig");
    reveal_strlit("renameChat");
    reveal_strlit("setChatArchived");
    assert("deleteChat"@.len() == 10 && "deleteSpace"@.len() == 11 && "setChatConfig"@.len() == 13);
    assert("renameChat"@.len() == 10 && "setChatArchived"@.len() == 15);
    assert("deleteChat"@[0] == 'd' && "renameChat"@[0] == 'r');
    reveal_strlit("set_composer_text");
    reveal_strlit("dispatch_native_action");
    assert("set_composer_text"@.len() == 17 && "dispatch_native_action"@.len() == 22);
    reveal_strlit("list_sessions");
    reveal_strlit("list_projects");
    reveal_strlit("list_devices");
    reveal_strlit("focus_session");
    reveal_strlit("select_project");
    reveal_strlit("create_session");
    reveal_strlit("send_message");
    reveal_strlit("steer_session");
    reveal_strlit("stop_session");
    reveal_strlit("respond_to_question");
    assert("list_sessions"@.len() == 13 && "list_projects"@.len() == 13);
    assert("list_devices"@.len() == 12 && "focus_session"@.len() == 13);
    assert("select_project"@.len() == 14 && "create_session"@.len() == 14);
    assert("send_message"@.len() == 12 && "steer_session"@.len() == 13);
    assert("stop_session"@.len() == 12 && "respond_to_question"@.len() == 19);
}

proof fn panel_actions_ask_rightly(i: int)
    requires
        0 <= i < panel_rows().len(),
    ensures
        asks_rightly(panel_rows()[i]),
{
    reveal_strlit("set_composer_text");
    reveal_strlit("dispatch_native_action");
    assert("set_composer_text"@.len() == 17 && "dispatch_native_action"@.len() == 22);
    reveal_strlit("show_diff");
    reveal_strlit("open_file");
    reveal_strlit("open_browser");
    reveal_strlit("open_settings");
    reveal_strlit("list_native_actions");
    reveal_strlit("set_theme");
    assert("show_diff"@.len() == 9 && "open_file"@.len() == 9 && "open_browser"@.len() == 12);
    assert("open_settings"@.len() == 13 && "list_native_actions"@.len() == 19);
    assert("set_theme"@.len() == 9);
}

proof fn device_actions_ask_rightly(i: int)
    requires
        0 <= i < device_rows().len(),
    ensures
        asks_rightly(device_rows()[i]),
{
    reveal_strlit("deleteChat");
    reveal_strlit("deleteSpace");
    reveal_strlit("setChatConfig");
    reveal_strlit("renameSpace");
    reveal_strlit("renameDevice");
    assert("deleteChat"@.len() == 10 && "deleteSpace"@.len() == 11 && "setChatConfig"@.len() == 13);
    assert("renameSpace"@.len() == 11 && "renameDevice"@.len() == 12);
    assert("deleteSpace"@[0] == 'd' && "renameSpace"@[0] == 'r');
    reveal_strlit("set_composer_text");
    reveal_strlit("dispatch_native_action");
    reveal_strlit("add_project");
    assert("set_composer_text"@.len() == 17 && "dispatch_native_action"@.len() == 22);
    assert("add_project"@.len() == 11);
}

proof fn repository_actions_ask_rightly(i: int)
    requires
        0 <= i < repository_rows().len(),
    ensures
        asks_rightly(repository_rows()[i]),
{
}

proof fn file_actions_ask_rightly(i: int)
    requires
        0 <= i < file_rows().len(),
    ensures
        asks_rightly(file_rows()[i]),
{
}

proof fn terminal_actions_ask_rightly(i: int)
    requires
        0 <= i < terminal_rows().len(),
    ensures
        asks_rightly(terminal_rows()[i]),
{
}

proof fn queue_actions_ask_rightly(i: int)
    requires
        0 <= i < queue_rows().len(),
    ensures
        asks_rightly(queue_rows()[i]),
{
    reveal_strlit("set_composer_text");
    reveal_strlit("dispatch_native_action");
    reveal_strlit("end_voice");
    assert("set_composer_text"@.len() == 17 && "dispatch_native_action"@.len() == 22);
    assert("end_voice"@.len() == 9);
}

proof fn every_action_asks_rightly(i: int)
    requires
        0 <= i < catalog_rows().len(),
    ensures
        asks_rightly(catalog_rows()[i]),
{
    let a = session_rows().len() as int;
    let b = a + panel_rows().len();
    let c = b + device_rows().len();
    let d = c + repository_rows().len();
    let e = d + file_rows().len();
    let f = e + terminal_rows().len();
    if i < a {
        session_actions_ask_rightly(i);
    } else if i < b {
        panel_actions_ask_rightly(i - a);
    } else if i < c {
        device_actions_ask_rightly(i - b);
    } else if i < d {
        repository_actions_ask_rightly(i - c);
    } else if i < e {
        file_actions_ask_rightly(i - d);
    } else if i < f {
        terminal_actions_ask_rightly(i - e);
    } else {
        queue_actions_ask_rightly(i - f);
    }
}

/// An action that cannot be taken back asks first, and no other does: on a
/// device, in the store, and in the application itself.
pub proof fn grave_actions_ask_first(i: int)
    requires
        0 <= i < catalog_rows().len(),
    ensures
        ({
            let row = catalog_rows()[i];
            &&& row.target matches Target::Rpc(method) ==> (row.confirm <==> is_grave(method))
            &&& row.target is Snapshot ==> !row.confirm
            &&& row.target matches Target::Mutation(op) ==> (row.confirm <==> op@
                == "deleteChat"@ || op@ == "deleteSpace"@ || op@ == "setChatConfig"@)
            &&& row.target is Ui ==> (row.confirm <==> row.name@ == "set_composer_text"@
                || row.name@ == "dispatch_native_action"@)
        }),
{
    every_action_asks_rightly(i);
}

/// What only reads never asks, and what is watched is read as a snapshot.
pub proof fn reading_never_asks(i: int, method: Method)
    requires
        0 <= i < catalog_rows().len(),
        catalog_rows()[i].target == Target::Rpc(method) || catalog_rows()[i].target
            == Target::Snapshot(method),
        only_reads(method),
    ensures
        !catalog_rows()[i].confirm,
        catalog_rows()[i].target is Snapshot <==> method is WatchDocMessages || method
            is WatchQueue,
{
    every_action_asks_rightly(i);
}

/// The place of the action that calls a method.
spec fn place_of_method(method: Method) -> int {
    match method {
        Method::WatchDocMessages => 3,
        Method::ListHarnesses => 23,
        Method::ListModels => 24,
        Method::ListCommands => 25,
        Method::ListRepos => 30,
        Method::ListFolders => 31,
        Method::ListBranches => 32,
        Method::ListRefs => 33,
        Method::FetchAll => 34,
        Method::SwitchRef => 35,
        Method::CreateWorktree => 36,
        Method::DeleteWorktree => 37,
        Method::SearchFiles => 38,
        Method::ListWorkspaceDirectory => 39,
        Method::ReadWorkspaceFile => 40,
        Method::WriteWorkspaceFile => 41,
        Method::ListProjectActions => 42,
        Method::RunProjectAction => 43,
        Method::OpenTerminal => 44,
        Method::WriteTerminal => 45,
        Method::CloseTerminal => 46,
        Method::WatchQueue => 47,
        Method::UpdateQueuedMessage => 48,
        Method::RemoveQueuedMessage => 49,
        Method::SendQueuedMessageNow => 50,
        Method::ListAgentAccounts => 51,
    }
}

/// The method an action calls, if any.
pub open spec fn called_by(row: Row) -> Option<Method> {
    match row.target {
        Target::Rpc(method) => Some(method),
        Target::Snapshot(method) => Some(method),
        _ => None,
    }
}

proof fn session_methods_have_their_place(i: int)
    requires
        0 <= i < session_rows().len(),
    ensures
        called_by(session_rows()[i]) matches Some(method) ==> place_of_method(method) == i,
{
}

proof fn panel_actions_call_nothing(i: int)
    requires
        0 <= i < panel_rows().len(),
    ensures
        called_by(panel_rows()[i]) is None,
{
}

proof fn device_methods_have_their_place(i: int)
    requires
        0 <= i < device_rows().len(),
    ensures
        called_by(device_rows()[i]) matches Some(method) ==> place_of_method(method) == 23 + i,
{
}

proof fn repository_methods_have_their_place(i: int)
    requires
        0 <= i < repository_rows().len(),
    ensures
        called_by(repository_rows()[i]) matches Some(method) ==> place_of_method(method) == 30 + i,
{
}

proof fn file_methods_have_their_place(i: int)
    requires
        0 <= i < file_rows().len(),
    ensures
        called_by(file_rows()[i]) matches Some(method) ==> place_of_method(method) == 38 + i,
{
}

proof fn terminal_methods_have_their_place(i: int)
    requires
        0 <= i < terminal_rows().len(),
    ensures
        called_by(terminal_rows()[i]) matches Some(method) ==> place_of_method(method) == 42 + i,
{
}

proof fn queue_methods_have_their_place(i: int)
    requires
        0 <= i < queue_rows().len(),
    ensures
        called_by(queue_rows()[i]) matches Some(method) ==> place_of_method(method) == 47 + i,
{
}

proof fn every_method_has_its_place(i: int)
    requires
        0 <= i < catalog_rows().len(),
    ensures
        called_by(catalog_rows()[i]) matches Some(method) ==> place_of_method(method) == i,
{
    let a = session_rows().len() as int;
    let b = a + panel_rows().len();
    let c = b + device_rows().len();
    let d = c + repository_rows().len();
    let e = d + file_rows().len();
    let f = e + terminal_rows().len();
    assert(a == 15 && b == 23 && c == 30 && d == 38 && e == 42 && f == 47);
    if i < a {
        session_methods_have_their_place(i);
    } else if i < b {
        panel_actions_call_nothing(i - a);
    } else if i < c {
        device_methods_have_their_place(i - b);
    } else if i < d {
        repository_methods_have_their_place(i - c);
    } else if i < e {
        file_methods_have_their_place(i - d);
    } else if i < f {
        terminal_methods_have_their_place(i - e);
    } else {
        queue_methods_have_their_place(i - f);
    }
}

/// No two actions call the same method.
pub proof fn actions_do_not_share_methods(i: int, j: int)
    requires
        0 <= i < j < catalog_rows().len(),
        called_by(catalog_rows()[i]) is Some,
    ensures
        called_by(catalog_rows()[i]) != called_by(catalog_rows()[j]),
{
    every_method_has_its_place(i);
    every_method_has_its_place(j);
}

/// The action cannot be called without a text of that name.
pub open spec fn needs_text(row: Row, name: Seq<char>) -> bool {
    exists|k: int|
        0 <= k < row.fields.len() && (#[trigger] row.fields[k]).name@ == name && row.fields[k].kind
            is Text && !row.fields[k].optional
}

/// What a method's action has to be told, at the least.
pub open spec fn object_of(method: Method) -> Option<Seq<char>> {
    match method {
        Method::ListModels | Method::ListCommands => Some("harness"@),
        Method::ListBranches | Method::ListRefs | Method::FetchAll | Method::SwitchRef
        | Method::CreateWorktree | Method::DeleteWorktree => Some("repoPath"@),
        Method::SearchFiles => Some("query"@),
        Method::ReadWorkspaceFile | Method::WriteWorkspaceFile => Some("path"@),
        Method::ListProjectActions | Method::RunProjectAction => Some("spaceId"@),
        Method::OpenTerminal | Method::WatchQueue | Method::UpdateQueuedMessage
        | Method::RemoveQueuedMessage | Method::SendQueuedMessageNow
        | Method::WatchDocMessages => Some("chatId"@),
        Method::WriteTerminal | Method::CloseTerminal => Some("terminalId"@),
        _ => None,
    }
}

/// The action names what it acts on, and may name the device to act on last.
spec fn is_addressed(row: Row) -> bool {
    match row.target {
        Target::Rpc(method) => {
            &&& object_of(method) matches Some(name) ==> needs_text(row, name)
            &&& !(method is UpdateQueuedMessage) && !(method is RemoveQueuedMessage) && !(
            method is SendQueuedMessageNow) ==> {
                &&& row.fields.len() > 0
                &&& row.fields.last().name@ == "targetDeviceId"@
                &&& row.fields.last().kind is Text && row.fields.last().optional
            }
        },
        Target::Snapshot(method) => object_of(method) matches Some(name) ==> needs_text(row, name),
        _ => true,
    }
}

proof fn session_actions_are_addressed(i: int)
    requires
        0 <= i < session_rows().len(),
    ensures
        is_addressed(session_rows()[i]),
{
    if i == 3 {
        assert(session_rows()[i].fields[0].name@ == "chatId"@);
    }
}

proof fn panel_actions_are_addressed(i: int)
    requires
        0 <= i < panel_rows().len(),
    ensures
        is_addressed(panel_rows()[i]),
{
}

proof fn device_actions_are_addressed(i: int)
    requires
        0 <= i < device_rows().len(),
    ensures
        is_addressed(device_rows()[i]),
{
    if i == 1 || i == 2 {
        assert(device_rows()[i].fields[0].name@ == "harness"@);
    }
}

proof fn repository_actions_are_addressed(i: int)
    requires
        0 <= i < repository_rows().len(),
    ensures
        is_addressed(repository_rows()[i]),
{
    if i >= 2 {
        assert(repository_rows()[i].fields[0].name@ == "repoPath"@);
    }
}

proof fn file_actions_are_addressed(i: int)
    requires
        0 <= i < file_rows().len(),
    ensures
        is_addressed(file_rows()[i]),
{
    if i == 0 {
        assert(file_rows()[i].fields[0].name@ == "query"@);
    } else if i >= 2 {
        assert(file_rows()[i].fields[2].name@ == "path"@);
    }
}

proof fn terminal_actions_are_addressed(i: int)
    requires
        0 <= i < terminal_rows().len(),
    ensures
        is_addressed(terminal_rows()[i]),
{
    if i <= 1 {
        assert(terminal_rows()[i].fields[0].name@ == "spaceId"@);
    } else if i == 2 {
        assert(terminal_rows()[i].fields[0].name@ == "chatId"@);
    } else {
        assert(terminal_rows()[i].fields[0].name@ == "terminalId"@);
    }
}

proof fn queue_actions_are_addressed(i: int)
    requires
        0 <= i < queue_rows().len(),
    ensures
        is_addressed(queue_rows()[i]),
{
    if i <= 3 {
        assert(queue_rows()[i].fields[0].name@ == "chatId"@);
    }
}

/// An action that runs on a device cannot be called without what it acts on,
/// and may name the device, as its last argument.
pub proof fn an_action_names_what_it_acts_on(i: int, method: Method)
    requires
        0 <= i < catalog_rows().len(),
        called_by(catalog_rows()[i]) == Some(method),
    ensures
        object_of(method) matches Some(name) ==> needs_text(catalog_rows()[i], name),
        catalog_rows()[i].target is Rpc && !(method is UpdateQueuedMessage) && !(
        method is RemoveQueuedMessage) && !(method is SendQueuedMessageNow) ==> {
            let last = catalog_rows()[i].fields.last();
            last.name@ == "targetDeviceId"@ && last.kind is Text && last.optional
        },
{
    let a = session_rows().len() as int;
    let b = a + panel_rows().len();
    let c = b + device_rows().len();
    let d = c + repository_rows().len();
    let e = d + file_rows().len();
    let f = e + terminal_rows().len();
    if i < a {
        session_actions_are_addressed(i);
    } else if i < b {
        panel_actions_are_addressed(i - a);
    } else if i < c {
        device_actions_are_addressed(i - b);
    } else if i < d {
        repository_actions_are_addressed(i - c);
    } else if i < e {
        file_actions_are_addressed(i - d);
    } else if i < f {
        terminal_actions_are_addressed(i - e);
    } else {
        queue_actions_are_addressed(i - f);
    }
}

} // verus!
