//! The catalog of application actions the voice backend can discover and run.
use vstd::prelude::*;
use crate::voice_actions::{action, field, needed, offered, row, Action, Field, Kind, Method, Row, Target};

verus! {

/// Sessions: finding, reading, creating, steering and configuring them.
pub open spec fn session_rows() -> Seq<Row> {
    seq![
        row(
            "list_sessions",
            "Search all sessions, including archived ones. Returns current status, host, project, and last message preview.",
            Target::Ui,
            seq![offered("query", Kind::Text)],
            false,
        ),
        row(
            "list_projects",
            "List projects and their host devices.",
            Target::Ui,
            Seq::empty(),
            false,
        ),
        row(
            "list_devices",
            "List devices and online state.",
            Target::Ui,
            Seq::empty(),
            false,
        ),
        row(
            "read_session",
            "Read a session's current transcript snapshot. Cached remote data may lag; results include snapshot metadata.",
            Target::Snapshot(Method::WatchDocMessages),
            seq![needed("chatId", Kind::Text)],
            false,
        ),
        row(
            "focus_session",
            "Show an existing session in Noches.",
            Target::Ui,
            seq![needed("chatId", Kind::Text)],
            false,
        ),
        row(
            "select_project",
            "Select a project for the new-session canvas.",
            Target::Ui,
            seq![needed("spaceId", Kind::Text)],
            false,
        ),
        row(
            "create_session",
            "Create a session using the current composer defaults. Optional config is ChatConfig: harness, model, reasoning, modelOptions, sandbox. Omit config unless the user requests overrides; validate requested models with list_models. Set projectless=true to work outside a project. Optional baseRef creates an isolated worktree on the host when the prompt starts. Returns the created chat ID. If prompt is absent, creates without starting work.",
            Target::Ui,
            seq![offered("spaceId", Kind::Text), offered("deviceId", Kind::Text), offered("projectless", Kind::Boolean), offered("prompt", Kind::Text), offered("config", Kind::Object), offered("baseRef", Kind::Text)],
            false,
        ),
        row(
            "send_message",
            "Send dictated text to a session. Busy sessions queue the message; idle sessions start a turn with their saved config and normal sandbox. Returns command/queue acceptance, not agent completion.",
            Target::Ui,
            seq![needed("chatId", Kind::Text), needed("text", Kind::Text)],
            false,
        ),
        row(
            "steer_session",
            "Steer a running agent with a user-requested follow-up.",
            Target::Ui,
            seq![needed("chatId", Kind::Text), needed("text", Kind::Text)],
            false,
        ),
        row(
            "stop_session",
            "Interrupt a coding agent. Does not end the voice call.",
            Target::Ui,
            seq![needed("chatId", Kind::Text)],
            false,
        ),
        row(
            "respond_to_question",
            "Answer the session's pending input request using exact requestId and question IDs read from its transcript. answers is [{questionId, labels:[string]}].",
            Target::Ui,
            seq![needed("chatId", Kind::Text), needed("requestId", Kind::Text), needed("answers", Kind::Array)],
            false,
        ),
        row(
            "rename_session",
            "Rename a session.",
            Target::Mutation("renameChat"),
            seq![needed("chatId", Kind::Text), needed("title", Kind::Text)],
            false,
        ),
        row(
            "archive_session",
            "Archive or unarchive a session.",
            Target::Mutation("setChatArchived"),
            seq![needed("chatId", Kind::Text), needed("archived", Kind::Boolean)],
            false,
        ),
        row(
            "delete_session",
            "Delete a session after native user confirmation.",
            Target::Mutation("deleteChat"),
            seq![needed("chatId", Kind::Text)],
            true,
        ),
        row(
            "set_session_config",
            "Replace ChatConfig after checking list_models: {harness,model,reasoning,modelOptions,sandbox}. Cannot silently change harness or increase sandbox permissions.",
            Target::Mutation("setChatConfig"),
            seq![needed("chatId", Kind::Text), needed("config", Kind::Object)],
            true,
        ),
    ]
}

#[verifier::spinoff_prover]
fn session_actions() -> (r: Vec<Action>)
    ensures
        r.deep_view() == session_rows(),
{
    let mut out: Vec<Action> = Vec::new();
    out.push(
        action(
            "list_sessions",
            "Search all sessions, including archived ones. Returns current status, host, project, and last message preview.",
            Target::Ui,
            vec![field("query", Kind::Text, true)],
            false,
        ),
    );
    out.push(
        action(
            "list_projects",
            "List projects and their host devices.",
            Target::Ui,
            vec![],
            false,
        ),
    );
    out.push(
        action(
            "list_devices",
            "List devices and online state.",
            Target::Ui,
            vec![],
            false,
        ),
    );
    out.push(
        action(
            "read_session",
            "Read a session's current transcript snapshot. Cached remote data may lag; results include snapshot metadata.",
            Target::Snapshot(Method::WatchDocMessages),
            vec![field("chatId", Kind::Text, false)],
            false,
        ),
    );
    out.push(
        action(
            "focus_session",
            "Show an existing session in Noches.",
            Target::Ui,
            vec![field("chatId", Kind::Text, false)],
            false,
        ),
    );
    out.push(
        action(
            "select_project",
            "Select a project for the new-session canvas.",
            Target::Ui,
            vec![field("spaceId", Kind::Text, false)],
            false,
        ),
    );
    out.push(
        action(
            "create_session",
            "Create a session using the current composer defaults. Optional config is ChatConfig: harness, model, reasoning, modelOptions, sandbox. Omit config unless the user requests overrides; validate requested models with list_models. Set projectless=true to work outside a project. Optional baseRef creates an isolated worktree on the host when the prompt starts. Returns the created chat ID. If prompt is absent, creates without starting work.",
            Target::Ui,
            vec![field("spaceId", Kind::Text, true), field("deviceId", Kind::Text, true), field("projectless", Kind::Boolean, true), field("prompt", Kind::Text, true), field("config", Kind::Object, true), field("baseRef", Kind::Text, true)],
            false,
        ),
    );
    out.push(
        action(
            "send_message",
            "Send dictated text to a session. Busy sessions queue the message; idle sessions start a turn with their saved config and normal sandbox. Returns command/queue acceptance, not agent completion.",
            Target::Ui,
            vec![field("chatId", Kind::Text, false), field("text", Kind::Text, false)],
            false,
        ),
    );
    out.push(
        action(
            "steer_session",
            "Steer a running agent with a user-requested follow-up.",
            Target::Ui,
            vec![field("chatId", Kind::Text, false), field("text", Kind::Text, false)],
            false,
        ),
    );
    out.push(
        action(
            "stop_session",
            "Interrupt a coding agent. Does not end the voice call.",
            Target::Ui,
            vec![field("chatId", Kind::Text, false)],
            false,
        ),
    );
    out.push(
        action(
            "respond_to_question",
            "Answer the session's pending input request using exact requestId and question IDs read from its transcript. answers is [{questionId, labels:[string]}].",
            Target::Ui,
            vec![field("chatId", Kind::Text, false), field("requestId", Kind::Text, false), field("answers", Kind::Array, false)],
            false,
        ),
    );
    out.push(
        action(
            "rename_session",
            "Rename a session.",
            Target::Mutation("renameChat"),
            vec![field("chatId", Kind::Text, false), field("title", Kind::Text, false)],
            false,
        ),
    );
    out.push(
        action(
            "archive_session",
            "Archive or unarchive a session.",
            Target::Mutation("setChatArchived"),
            vec![field("chatId", Kind::Text, false), field("archived", Kind::Boolean, false)],
            false,
        ),
    );
    out.push(
        action(
            "delete_session",
            "Delete a session after native user confirmation.",
            Target::Mutation("deleteChat"),
            vec![field("chatId", Kind::Text, false)],
            true,
        ),
    );
    out.push(
        action(
            "set_session_config",
            "Replace ChatConfig after checking list_models: {harness,model,reasoning,modelOptions,sandbox}. Cannot silently change harness or increase sandbox permissions.",
            Target::Mutation("setChatConfig"),
            vec![field("chatId", Kind::Text, false), field("config", Kind::Object, false)],
            true,
        ),
    );
    proof {
        assert(out@[0].fields@ =~= seq![offered("query", Kind::Text)]);
        assert(out@[1].fields@ =~= Seq::<Field>::empty());
        assert(out@[2].fields@ =~= Seq::<Field>::empty());
        assert(out@[3].fields@ =~= seq![needed("chatId", Kind::Text)]);
        assert(out@[4].fields@ =~= seq![needed("chatId", Kind::Text)]);
        assert(out@[5].fields@ =~= seq![needed("spaceId", Kind::Text)]);
        assert(out@[6].fields@ =~= seq![offered("spaceId", Kind::Text), offered("deviceId", Kind::Text), offered("projectless", Kind::Boolean), offered("prompt", Kind::Text), offered("config", Kind::Object), offered("baseRef", Kind::Text)]);
        assert(out@[7].fields@ =~= seq![needed("chatId", Kind::Text), needed("text", Kind::Text)]);
        assert(out@[8].fields@ =~= seq![needed("chatId", Kind::Text), needed("text", Kind::Text)]);
        assert(out@[9].fields@ =~= seq![needed("chatId", Kind::Text)]);
        assert(out@[10].fields@ =~= seq![needed("chatId", Kind::Text), needed("requestId", Kind::Text), needed("answers", Kind::Array)]);
        assert(out@[11].fields@ =~= seq![needed("chatId", Kind::Text), needed("title", Kind::Text)]);
        assert(out@[12].fields@ =~= seq![needed("chatId", Kind::Text), needed("archived", Kind::Boolean)]);
        assert(out@[13].fields@ =~= seq![needed("chatId", Kind::Text)]);
        assert(out@[14].fields@ =~= seq![needed("chatId", Kind::Text), needed("config", Kind::Object)]);
        assert(out.deep_view() =~= session_rows());
    }
    out
}

/// The window itself: composer, panels, settings and native actions.
pub open spec fn panel_rows() -> Seq<Row> {
    seq![
        row(
            "set_composer_text",
            "Set the focused composer's draft without sending it. Requires chatId matching the current session, or 'new' for the new-session canvas. Existing unsent draft replacement needs confirmation.",
            Target::Ui,
            seq![needed("chatId", Kind::Text), needed("text", Kind::Text)],
            true,
        ),
        row(
            "show_diff",
            "Show the current session's changes panel.",
            Target::Ui,
            Seq::empty(),
            false,
        ),
        row(
            "open_file",
            "Open a relative workspace file in the current session.",
            Target::Ui,
            seq![needed("path", Kind::Text)],
            false,
        ),
        row(
            "open_browser",
            "Open an http or https URL in the current session's browser panel.",
            Target::Ui,
            seq![needed("url", Kind::Text)],
            false,
        ),
        row(
            "open_settings",
            "Open settings. section: devices, accounts, harnesses, appearance, notifications, shortcuts, appshots, files, connections, archived.",
            Target::Ui,
            seq![offered("section", Kind::Text)],
            false,
        ),
        row(
            "list_native_actions",
            "List actions currently available in the focused Noches view. These are the same actions used by keyboard shortcuts, including pane splits, navigation, editor and terminal controls. Optional query filters action names.",
            Target::Ui,
            seq![offered("query", Kind::Text)],
            false,
        ),
        row(
            "dispatch_native_action",
            "Dispatch an exact name returned by list_native_actions to the focused view. Optional data supplies action parameters. Requires native confirmation because it can send drafts, change files, or close windows. Returns dispatched, not completed.",
            Target::Ui,
            seq![needed("name", Kind::Text), offered("data", Kind::Object)],
            true,
        ),
        row(
            "set_theme",
            "Set appearance to system, dark, or light.",
            Target::Ui,
            seq![needed("mode", Kind::Text)],
            false,
        ),
    ]
}

#[verifier::spinoff_prover]
fn panel_actions() -> (r: Vec<Action>)
    ensures
        r.deep_view() == panel_rows(),
{
    let mut out: Vec<Action> = Vec::new();
    out.push(
        action(
            "set_composer_text",
            "Set the focused composer's draft without sending it. Requires chatId matching the current session, or 'new' for the new-session canvas. Existing unsent draft replacement needs confirmation.",
            Target::Ui,
            vec![field("chatId", Kind::Text, false), field("text", Kind::Text, false)],
            true,
        ),
    );
    out.push(
        action(
            "show_diff",
            "Show the current session's changes panel.",
            Target::Ui,
            vec![],
            false,
        ),
    );
    out.push(
        action(
            "open_file",
            "Open a relative workspace file in the current session.",
            Target::Ui,
            vec![field("path", Kind::Text, false)],
            false,
        ),
    );
    out.push(
        action(
            "open_browser",
            "Open an http or https URL in the current session's browser panel.",
            Target::Ui,
            vec![field("url", Kind::Text, false)],
            false,
        ),
    );
    out.push(
        action(
            "open_settings",
            "Open settings. section: devices, accounts, harnesses, appearance, notifications, shortcuts, appshots, files, connections, archived.",
            Target::Ui,
            vec![field("section", Kind::Text, true)],
            false,
        ),
    );
    out.push(
        action(
            "list_native_actions",
            "List actions currently available in the focused Noches view. These are the same actions used by keyboard shortcuts, including pane splits, navigation, editor and terminal controls. Optional query filters action names.",
            Target::Ui,
            vec![field("query", Kind::Text, true)],
            false,
        ),
    );
    out.push(
        action(
            "dispatch_native_action",
            "Dispatch an exact name returned by list_native_actions to the focused view. Optional data supplies action parameters. Requires native confirmation because it can send drafts, change files, or close windows. Returns dispatched, not completed.",
            Target::Ui,
            vec![field("name", Kind::Text, false), field("data", Kind::Object, true)],
            true,
        ),
    );
    out.push(
        action(
            "set_theme",
            "Set appearance to system, dark, or light.",
            Target::Ui,
            vec![field("mode", Kind::Text, false)],
            false,
        ),
    );
    proof {
        assert(out@[0].fields@ =~= seq![needed("chatId", Kind::Text), needed("text", Kind::Text)]);
        assert(out@[1].fields@ =~= Seq::<Field>::empty());
        assert(out@[2].fields@ =~= seq![needed("path", Kind::Text)]);
        assert(out@[3].fields@ =~= seq![needed("url", Kind::Text)]);
        assert(out@[4].fields@ =~= seq![offered("section", Kind::Text)]);
        assert(out@[5].fields@ =~= seq![offered("query", Kind::Text)]);
        assert(out@[6].fields@ =~= seq![needed("name", Kind::Text), offered("data", Kind::Object)]);
        assert(out@[7].fields@ =~= seq![needed("mode", Kind::Text)]);
        assert(out.deep_view() =~= panel_rows());
    }
    out
}

/// Harnesses, models, projects and devices.
pub open spec fn device_rows() -> Seq<Row> {
    seq![
        row(
            "list_harnesses",
            "List agent harnesses on the selected target device.",
            Target::Rpc(Method::ListHarnesses),
            seq![offered("targetDeviceId", Kind::Text)],
            false,
        ),
        row(
            "list_models",
            "List exact model IDs for an agent harness on the target device.",
            Target::Rpc(Method::ListModels),
            seq![needed("harness", Kind::Text), offered("targetDeviceId", Kind::Text)],
            false,
        ),
        row(
            "list_commands",
            "List commands supported by a harness.",
            Target::Rpc(Method::ListCommands),
            seq![needed("harness", Kind::Text), offered("targetDeviceId", Kind::Text)],
            false,
        ),
        row(
            "rename_project",
            "Rename a project.",
            Target::Mutation("renameSpace"),
            seq![needed("spaceId", Kind::Text), needed("name", Kind::Text)],
            false,
        ),
        row(
            "add_project",
            "Register a folder as a project on a device. IDs are generated by Noches.",
            Target::Ui,
            seq![needed("deviceId", Kind::Text), needed("path", Kind::Text), offered("name", Kind::Text)],
            false,
        ),
        row(
            "delete_project",
            "Delete a project and its sessions after native confirmation.",
            Target::Mutation("deleteSpace"),
            seq![needed("spaceId", Kind::Text)],
            true,
        ),
        row(
            "rename_device",
            "Rename a device.",
            Target::Mutation("renameDevice"),
            seq![needed("deviceId", Kind::Text), needed("name", Kind::Text)],
            false,
        ),
    ]
}

#[verifier::spinoff_prover]
fn device_actions() -> (r: Vec<Action>)
    ensures
        r.deep_view() == device_rows(),
{
    let mut out: Vec<Action> = Vec::new();
    out.push(
        action(
            "list_harnesses",
            "List agent harnesses on the selected target device.",
            Target::Rpc(Method::ListHarnesses),
            vec![field("targetDeviceId", Kind::Text, true)],
            false,
        ),
    );
    out.push(
        action(
            "list_models",
            "List exact model IDs for an agent harness on the target device.",
            Target::Rpc(Method::ListModels),
            vec![field("harness", Kind::Text, false), field("targetDeviceId", Kind::Text, true)],
            false,
        ),
    );
    out.push(
        action(
            "list_commands",
            "List commands supported by a harness.",
            Target::Rpc(Method::ListCommands),
            vec![field("harness", Kind::Text, false), field("targetDeviceId", Kind::Text, true)],
            false,
        ),
    );
    out.push(
        action(
            "rename_project",
            "Rename a project.",
            Target::Mutation("renameSpace"),
            vec![field("spaceId", Kind::Text, false), field("name", Kind::Text, false)],
            false,
        ),
    );
    out.push(
        action(
            "add_project",
            "Register a folder as a project on a device. IDs are generated by Noches.",
            Target::Ui,
            vec![field("deviceId", Kind::Text, false), field("path", Kind::Text, false), field("name", Kind::Text, true)],
            false,
        ),
    );
    out.push(
        action(
            "delete_project",
            "Delete a project and its sessions after native confirmation.",
            Target::Mutation("deleteSpace"),
            vec![field("spaceId", Kind::Text, false)],
            true,
        ),
    );
    out.push(
        action(
            "rename_device",
            "Rename a device.",
            Target::Mutation("renameDevice"),
            vec![field("deviceId", Kind::Text, false), field("name", Kind::Text, false)],
            false,
        ),
    );
    proof {
        assert(out@[0].fields@ =~= seq![offered("targetDeviceId", Kind::Text)]);
        assert(out@[1].fields@ =~= seq![needed("harness", Kind::Text), offered("targetDeviceId", Kind::Text)]);
        assert(out@[2].fields@ =~= seq![needed("harness", Kind::Text), offered("targetDeviceId", Kind::Text)]);
        assert(out@[3].fields@ =~= seq![needed("spaceId", Kind::Text), needed("name", Kind::Text)]);
        assert(out@[4].fields@ =~= seq![needed("deviceId", Kind::Text), needed("path", Kind::Text), offered("name", Kind::Text)]);
        assert(out@[5].fields@ =~= seq![needed("spaceId", Kind::Text)]);
        assert(out@[6].fields@ =~= seq![needed("deviceId", Kind::Text), needed("name", Kind::Text)]);
        assert(out.deep_view() =~= device_rows());
    }
    out
}

/// Repositories, refs and worktrees.
pub open spec fn repository_rows() -> Seq<Row> {
    seq![
        row(
            "list_repos",
            "List repositories on a device.",
            Target::Rpc(Method::ListRepos),
            seq![offered("targetDeviceId", Kind::Text)],
            false,
        ),
        row(
            "list_folders",
            "Browse folders on a device.",
            Target::Rpc(Method::ListFolders),
            seq![offered("path", Kind::Text), offered("targetDeviceId", Kind::Text)],
            false,
        ),
        row(
            "list_branches",
            "List repository branches.",
            Target::Rpc(Method::ListBranches),
            seq![needed("repoPath", Kind::Text), offered("targetDeviceId", Kind::Text)],
            false,
        ),
        row(
            "list_refs",
            "List refs and worktrees for a repository.",
            Target::Rpc(Method::ListRefs),
            seq![needed("repoPath", Kind::Text), offered("targetDeviceId", Kind::Text)],
            false,
        ),
        row(
            "fetch_refs",
            "Fetch repository remotes without changing files or HEAD.",
            Target::Rpc(Method::FetchAll),
            seq![needed("repoPath", Kind::Text), offered("targetDeviceId", Kind::Text)],
            false,
        ),
        row(
            "switch_ref",
            "Switch a checkout branch/ref after native confirmation.",
            Target::Rpc(Method::SwitchRef),
            seq![needed("repoPath", Kind::Text), needed("refName", Kind::Text), offered("targetDeviceId", Kind::Text)],
            true,
        ),
        row(
            "create_worktree",
            "Create an isolated worktree off branch on the repository's host. May run configured setup actions.",
            Target::Rpc(Method::CreateWorktree),
            seq![needed("repoPath", Kind::Text), needed("branch", Kind::Text), offered("spaceId", Kind::Text), offered("targetDeviceId", Kind::Text)],
            false,
        ),
        row(
            "delete_worktree",
            "Delete an isolated worktree after native confirmation.",
            Target::Rpc(Method::DeleteWorktree),
            seq![needed("repoPath", Kind::Text), needed("worktreePath", Kind::Text), offered("targetDeviceId", Kind::Text)],
            true,
        ),
    ]
}

#[verifier::spinoff_prover]
fn repository_actions() -> (r: Vec<Action>)
    ensures
        r.deep_view() == repository_rows(),
{
    let mut out: Vec<Action> = Vec::new();
    out.push(
        action(
            "list_repos",
            "List repositories on a device.",
            Target::Rpc(Method::ListRepos),
            vec![field("targetDeviceId", Kind::Text, true)],
            false,
        ),
    );
    out.push(
        action(
            "list_folders",
            "Browse folders on a device.",
            Target::Rpc(Method::ListFolders),
            vec![field("path", Kind::Text, true), field("targetDeviceId", Kind::Text, true)],
            false,
        ),
    );
    out.push(
        action(
            "list_branches",
            "List repository branches.",
            Target::Rpc(Method::ListBranches),
            vec![field("repoPath", Kind::Text, false), field("targetDeviceId", Kind::Text, true)],
            false,
        ),
    );
    out.push(
        action(
            "list_refs",
            "List refs and worktrees for a repository.",
            Target::Rpc(Method::ListRefs),
            vec![field("repoPath", Kind::Text, false), field("targetDeviceId", Kind::Text, true)],
            false,
        ),
    );
    out.push(
        action(
            "fetch_refs",
            "Fetch repository remotes without changing files or HEAD.",
            Target::Rpc(Method::FetchAll),
            vec![field("repoPath", Kind::Text, false), field("targetDeviceId", Kind::Text, true)],
            false,
        ),
    );
    out.push(
        action(
            "switch_ref",
            "Switch a checkout branch/ref after native confirmation.",
            Target::Rpc(Method::SwitchRef),
            vec![field("repoPath", Kind::Text, false), field("refName", Kind::Text, false), field("targetDeviceId", Kind::Text, true)],
            true,
        ),
    );
    out.push(
        action(
            "create_worktree",
            "Create an isolated worktree off branch on the repository's host. May run configured setup actions.",
            Target::Rpc(Method::CreateWorktree),
            vec![field("repoPath", Kind::Text, false), field("branch", Kind::Text, false), field("spaceId", Kind::Text, true), field("targetDeviceId", Kind::Text, true)],
            false,
        ),
    );
    out.push(
        action(
            "delete_worktree",
            "Delete an isolated worktree after native confirmation.",
            Target::Rpc(Method::DeleteWorktree),
            vec![field("repoPath", Kind::Text, false), field("worktreePath", Kind::Text, false), field("targetDeviceId", Kind::Text, true)],
            true,
        ),
    );
    proof {
        assert(out@[0].fields@ =~= seq![offered("targetDeviceId", Kind::Text)]);
        assert(out@[1].fields@ =~= seq![offered("path", Kind::Text), offered("targetDeviceId", Kind::Text)]);
        assert(out@[2].fields@ =~= seq![needed("repoPath", Kind::Text), offered("targetDeviceId", Kind::Text)]);
        assert(out@[3].fields@ =~= seq![needed("repoPath", Kind::Text), offered("targetDeviceId", Kind::Text)]);
        assert(out@[4].fields@ =~= seq![needed("repoPath", Kind::Text), offered("targetDeviceId", Kind::Text)]);
        assert(out@[5].fields@ =~= seq![needed("repoPath", Kind::Text), needed("refName", Kind::Text), offered("targetDeviceId", Kind::Text)]);
        assert(out@[6].fields@ =~= seq![needed("repoPath", Kind::Text), needed("branch", Kind::Text), offered("spaceId", Kind::Text), offered("targetDeviceId", Kind::Text)]);
        assert(out@[7].fields@ =~= seq![needed("repoPath", Kind::Text), needed("worktreePath", Kind::Text), offered("targetDeviceId", Kind::Text)]);
        assert(out.deep_view() =~= repository_rows());
    }
    out
}

/// Files of a checkout.
pub open spec fn file_rows() -> Seq<Row> {
    seq![
        row(
            "search_files",
            "Search paths in exactly one chat or project checkout.",
            Target::Rpc(Method::SearchFiles),
            seq![needed("query", Kind::Text), offered("chatId", Kind::Text), offered("spaceId", Kind::Text), offered("targetDeviceId", Kind::Text)],
            false,
        ),
        row(
            "list_directory",
            "List files in exactly one chat or project. Use directory for a relative folder.",
            Target::Rpc(Method::ListWorkspaceDirectory),
            seq![offered("chatId", Kind::Text), offered("spaceId", Kind::Text), offered("directory", Kind::Text), offered("includeIgnored", Kind::Boolean), offered("cursor", Kind::Text), offered("targetDeviceId", Kind::Text)],
            false,
        ),
        row(
            "read_file",
            "Read a relative text file in exactly one chat or project checkout. Returns hashes required for safe writes.",
            Target::Rpc(Method::ReadWorkspaceFile),
            seq![offered("chatId", Kind::Text), offered("spaceId", Kind::Text), needed("path", Kind::Text), offered("targetDeviceId", Kind::Text)],
            false,
        ),
        row(
            "write_file",
            "Save text using the exact checkout ID, content hash, encoding and line ending returned by read_file. Reports conflicts without overwriting concurrent edits.",
            Target::Rpc(Method::WriteWorkspaceFile),
            seq![offered("chatId", Kind::Text), offered("spaceId", Kind::Text), needed("path", Kind::Text), needed("text", Kind::Text), needed("expectedCheckoutId", Kind::Text), needed("expectedContentHash", Kind::Text), needed("encoding", Kind::Text), needed("lineEnding", Kind::Text), offered("targetDeviceId", Kind::Text)],
            true,
        ),
    ]
}

#[verifier::spinoff_prover]
fn file_actions() -> (r: Vec<Action>)
    ensures
        r.deep_view() == file_rows(),
{
    let mut out: Vec<Action> = Vec::new();
    out.push(
        action(
            "search_files",
            "Search paths in exactly one chat or project checkout.",
            Target::Rpc(Method::SearchFiles),
            vec![field("query", Kind::Text, false), field("chatId", Kind::Text, true), field("spaceId", Kind::Text, true), field("targetDeviceId", Kind::Text, true)],
            false,
        ),
    );
    out.push(
        action(
            "list_directory",
            "List files in exactly one chat or project. Use directory for a relative folder.",
            Target::Rpc(Method::ListWorkspaceDirectory),
            vec![field("chatId", Kind::Text, true), field("spaceId", Kind::Text, true), field("directory", Kind::Text, true), field("includeIgnored", Kind::Boolean, true), field("cursor", Kind::Text, true), field("targetDeviceId", Kind::Text, true)],
            false,
        ),
    );
    out.push(
        action(
            "read_file",
            "Read a relative text file in exactly one chat or project checkout. Returns hashes required for safe writes.",
            Target::Rpc(Method::ReadWorkspaceFile),
            vec![field("chatId", Kind::Text, true), field("spaceId", Kind::Text, true), field("path", Kind::Text, false), field("targetDeviceId", Kind::Text, true)],
            false,
        ),
    );
    out.push(
        action(
            "write_file",
            "Save text using the exact checkout ID, content hash, encoding and line ending returned by read_file. Reports conflicts without overwriting concurrent edits.",
            Target::Rpc(Method::WriteWorkspaceFile),
            vec![field("chatId", Kind::Text, true), field("spaceId", Kind::Text, true), field("path", Kind::Text, false), field("text", Kind::Text, false), field("expectedCheckoutId", Kind::Text, false), field("expectedContentHash", Kind::Text, false), field("encoding", Kind::Text, false), field("lineEnding", Kind::Text, false), field("targetDeviceId", Kind::Text, true)],
            true,
        ),
    );
    proof {
        assert(out@[0].fields@ =~= seq![needed("query", Kind::Text), offered("chatId", Kind::Text), offered("spaceId", Kind::Text), offered("targetDeviceId", Kind::Text)]);
        assert(out@[1].fields@ =~= seq![offered("chatId", Kind::Text), offered("spaceId", Kind::Text), offered("directory", Kind::Text), offered("includeIgnored", Kind::Boolean), offered("cursor", Kind::Text), offered("targetDeviceId", Kind::Text)]);
        assert(out@[2].fields@ =~= seq![offered("chatId", Kind::Text), offered("spaceId", Kind::Text), needed("path", Kind::Text), offered("targetDeviceId", Kind::Text)]);
        assert(out@[3].fields@ =~= seq![offered("chatId", Kind::Text), offered("spaceId", Kind::Text), needed("path", Kind::Text), needed("text", Kind::Text), needed("expectedCheckoutId", Kind::Text), needed("expectedContentHash", Kind::Text), needed("encoding", Kind::Text), needed("lineEnding", Kind::Text), offered("targetDeviceId", Kind::Text)]);
        assert(out.deep_view() =~= file_rows());
    }
    out
}

/// Project actions and terminals.
pub open spec fn terminal_rows() -> Seq<Row> {
    seq![
        row(
            "list_project_actions",
            "List the project's configured terminal commands.",
            Target::Rpc(Method::ListProjectActions),
            seq![needed("spaceId", Kind::Text), offered("targetDeviceId", Kind::Text)],
            false,
        ),
        row(
            "run_project_action",
            "Run a configured project action. cols and rows set terminal dimensions, usually 100 and 30.",
            Target::Rpc(Method::RunProjectAction),
            seq![needed("spaceId", Kind::Text), needed("chatId", Kind::Text), needed("actionId", Kind::Text), needed("cols", Kind::Integer), needed("rows", Kind::Integer), offered("targetDeviceId", Kind::Text)],
            true,
        ),
        row(
            "open_terminal",
            "Create a terminal for a session. Usually cols=100, rows=30. Use the returned ID for subsequent terminal operations.",
            Target::Rpc(Method::OpenTerminal),
            seq![needed("chatId", Kind::Text), needed("cols", Kind::Integer), needed("rows", Kind::Integer), offered("targetDeviceId", Kind::Text)],
            false,
        ),
        row(
            "write_terminal",
            "Send base64-encoded UTF-8 bytes to an existing terminal. Newline executes a shell command. Requires native confirmation.",
            Target::Rpc(Method::WriteTerminal),
            seq![needed("terminalId", Kind::Text), needed("data", Kind::Text), offered("targetDeviceId", Kind::Text)],
            true,
        ),
        row(
            "close_terminal",
            "Close an existing terminal after native confirmation.",
            Target::Rpc(Method::CloseTerminal),
            seq![needed("terminalId", Kind::Text), offered("targetDeviceId", Kind::Text)],
            true,
        ),
    ]
}

#[verifier::spinoff_prover]
fn terminal_actions() -> (r: Vec<Action>)
    ensures
        r.deep_view() == terminal_rows(),
{
    let mut out: Vec<Action> = Vec::new();
    out.push(
        action(
            "list_project_actions",
            "List the project's configured terminal commands.",
            Target::Rpc(Method::ListProjectActions),
            vec![field("spaceId", Kind::Text, false), field("targetDeviceId", Kind::Text, true)],
            false,
        ),
    );
    out.push(
        action(
            "run_project_action",
            "Run a configured project action. cols and rows set terminal dimensions, usually 100 and 30.",
            Target::Rpc(Method::RunProjectAction),
            vec![field("spaceId", Kind::Text, false), field("chatId", Kind::Text, false), field("actionId", Kind::Text, false), field("cols", Kind::Integer, false), field("rows", Kind::Integer, false), field("targetDeviceId", Kind::Text, true)],
            true,
        ),
    );
    out.push(
        action(
            "open_terminal",
            "Create a terminal for a session. Usually cols=100, rows=30. Use the returned ID for subsequent terminal operations.",
            Target::Rpc(Method::OpenTerminal),
            vec![field("chatId", Kind::Text, false), field("cols", Kind::Integer, false), field("rows", Kind::Integer, false), field("targetDeviceId", Kind::Text, true)],
            false,
        ),
    );
    out.push(
        action(
            "write_terminal",
            "Send base64-encoded UTF-8 bytes to an existing terminal. Newline executes a shell command. Requires native confirmation.",
            Target::Rpc(Method::WriteTerminal),
            vec![field("terminalId", Kind::Text, false), field("data", Kind::Text, false), field("targetDeviceId", Kind::Text, true)],
            true,
        ),
    );
    out.push(
        action(
            "close_terminal",
            "Close an existing terminal after native confirmation.",
            Target::Rpc(Method::CloseTerminal),
            vec![field("terminalId", Kind::Text, false), field("targetDeviceId", Kind::Text, true)],
            true,
        ),
    );
    proof {
        assert(out@[0].fields@ =~= seq![needed("spaceId", Kind::Text), offered("targetDeviceId", Kind::Text)]);
        assert(out@[1].fields@ =~= seq![needed("spaceId", Kind::Text), needed("chatId", Kind::Text), needed("actionId", Kind::Text), needed("cols", Kind::Integer), needed("rows", Kind::Integer), offered("targetDeviceId", Kind::Text)]);
        assert(out@[2].fields@ =~= seq![needed("chatId", Kind::Text), needed("cols", Kind::Integer), needed("rows", Kind::Integer), offered("targetDeviceId", Kind::Text)]);
        assert(out@[3].fields@ =~= seq![needed("terminalId", Kind::Text), needed("data", Kind::Text), offered("targetDeviceId", Kind::Text)]);
        assert(out@[4].fields@ =~= seq![needed("terminalId", Kind::Text), offered("targetDeviceId", Kind::Text)]);
        assert(out.deep_view() =~= terminal_rows());
    }
    out
}

/// Queued messages, accounts, and the end of the call.
pub open spec fn queue_rows() -> Seq<Row> {
    seq![
        row(
            "read_queue",
            "Read the session's queued follow-up messages.",
            Target::Snapshot(Method::WatchQueue),
            seq![needed("chatId", Kind::Text)],
            false,
        ),
        row(
            "edit_queued_message",
            "Edit a queued follow-up message.",
            Target::Rpc(Method::UpdateQueuedMessage),
            seq![needed("chatId", Kind::Text), needed("id", Kind::Text), needed("text", Kind::Text)],
            false,
        ),
        row(
            "remove_queued_message",
            "Remove a queued follow-up message.",
            Target::Rpc(Method::RemoveQueuedMessage),
            seq![needed("chatId", Kind::Text), needed("id", Kind::Text)],
            false,
        ),
        row(
            "send_queued_message",
            "Interrupt the current agent turn and send a specific queued message now.",
            Target::Rpc(Method::SendQueuedMessageNow),
            seq![needed("chatId", Kind::Text), needed("id", Kind::Text)],
            false,
        ),
        row(
            "list_agent_accounts",
            "Inspect available agent accounts and usage on a device.",
            Target::Rpc(Method::ListAgentAccounts),
            seq![offered("targetDeviceId", Kind::Text)],
            false,
        ),
        row(
            "end_voice",
            "End this voice conversation when the user asks to hang up.",
            Target::Ui,
            Seq::empty(),
            false,
        ),
    ]
}

#[verifier::spinoff_prover]
fn queue_actions() -> (r: Vec<Action>)
    ensures
        r.deep_view() == queue_rows(),
{
    let mut out: Vec<Action> = Vec::new();
    out.push(
        action(
            "read_queue",
            "Read the session's queued follow-up messages.",
            Target::Snapshot(Method::WatchQueue),
            vec![field("chatId", Kind::Text, false)],
            false,
        ),
    );
    out.push(
        action(
            "edit_queued_message",
            "Edit a queued follow-up message.",
            Target::Rpc(Method::UpdateQueuedMessage),
            vec![field("chatId", Kind::Text, false), field("id", Kind::Text, false), field("text", Kind::Text, false)],
            false,
        ),
    );
    out.push(
        action(
            "remove_queued_message",
            "Remove a queued follow-up message.",
            Target::Rpc(Method::RemoveQueuedMessage),
            vec![field("chatId", Kind::Text, false), field("id", Kind::Text, false)],
            false,
        ),
    );
    out.push(
        action(
            "send_queued_message",
            "Interrupt the current agent turn and send a specific queued message now.",
            Target::Rpc(Method::SendQueuedMessageNow),
            vec![field("chatId", Kind::Text, false), field("id", Kind::Text, false)],
            false,
        ),
    );
    out.push(
        action(
            "list_agent_accounts",
            "Inspect available agent accounts and usage on a device.",
            Target::Rpc(Method::ListAgentAccounts),
            vec![field("targetDeviceId", Kind::Text, true)],
            false,
        ),
    );
    out.push(
        action(
            "end_voice",
            "End this voice conversation when the user asks to hang up.",
            Target::Ui,
            vec![],
            false,
        ),
    );
    proof {
        assert(out@[0].fields@ =~= seq![needed("chatId", Kind::Text)]);
        assert(out@[1].fields@ =~= seq![needed("chatId", Kind::Text), needed("id", Kind::Text), needed("text", Kind::Text)]);
        assert(out@[2].fields@ =~= seq![needed("chatId", Kind::Text), needed("id", Kind::Text)]);
        assert(out@[3].fields@ =~= seq![needed("chatId", Kind::Text), needed("id", Kind::Text)]);
        assert(out@[4].fields@ =~= seq![offered("targetDeviceId", Kind::Text)]);
        assert(out@[5].fields@ =~= Seq::<Field>::empty());
        assert(out.deep_view() =~= queue_rows());
    }
    out
}

/// The whole catalog, in order.
pub open spec fn catalog_rows() -> Seq<Row> {
    session_rows() + panel_rows() + device_rows() + repository_rows() + file_rows() + terminal_rows() + queue_rows()
}

/// Moves the actions of one group behind the others.
fn extend(out: &mut Vec<Action>, group: Vec<Action>)
    ensures
        final(out).deep_view() == old(out).deep_view() + group.deep_view(),
{
    let ghost before = out.deep_view();
    let ghost added = group.deep_view();
    let mut group: Vec<Action> = group;
    out.append(&mut group);
    proof {
        assert(out.deep_view() =~= before + added);
    }
}

/// Every action the voice backend can discover and run.
pub fn catalog() -> (r: Vec<Action>)
    ensures
        r.deep_view() == catalog_rows(),
{
    let mut out: Vec<Action> = session_actions();
    extend(&mut out, panel_actions());
    extend(&mut out, device_actions());
    extend(&mut out, repository_actions());
    extend(&mut out, file_actions());
    extend(&mut out, terminal_actions());
    extend(&mut out, queue_actions());
    out
}

/// A number that tells the catalog's names apart: the length and three
/// characters of a name.
spec fn name_code(name: Seq<char>) -> int {
    ((name.len() * 1000 + name[0] as int) * 1000 + name[5] as int) * 1000 + name[7] as int
}

/// The place of each code in the catalog.
spec fn place_of(code: int) -> int {
    if code == 13108115115 {
        0
    } else if code == 13108112111 {
        1
    } else if code == 12108100118 {
        2
    } else if code == 12114115115 {
        3
    } else if code == 13102095101 {
        4
    } else if code == 14115116112 {
        5
    } else if code == 14099101115 {
        6
    } else if code == 12115109115 {
        7
    } else if code == 13115095101 {
        8
    } else if code == 12115115115 {
        9
    } else if code == 19114110095 {
        10
    } else if code == 14114101115 {
        11
    } else if code == 15097118095 {
        12
    } else if code == 14100101115 {
        13
    } else if code == 18115101115 {
        14
    } else if code == 17115111112 {
        15
    } else if code == 9115100102 {
        16
    } else if code == 9111102108 {
        17
    } else if code == 12111098111 {
        18
    } else if code == 13111115116 {
        19
    } else if code == 19108110116 {
        20
    } else if code == 22100116104 {
        21
    } else if code == 9115104109 {
        22
    } else if code == 14108104114 {
        23
    } else if code == 11108109100 {
        24
    } else if code == 13108099109 {
        25
    } else if code == 14114101112 {
        26
    } else if code == 11097114106 {
        27
    } else if code == 14100101112 {
        28
    } else if code == 13114101100 {
        29
    } else if code == 10108114112 {
        30
    } else if code == 12108102108 {
        31
    } else if code == 13108098097 {
        32
    } else if code == 9108114102 {
        33
    } else if code == 10102095101 {
        34
    } else if code == 10115104114 {
        35
    } else if code == 15099101119 {
        36
    } else if code == 15100101119 {
        37
    } else if code == 12115104102 {
        38
    } else if code == 14108100114 {
        39
    } else if code == 9114102108 {
        40
    } else if code == 10119095105 {
        41
    } else if code == 20108112111 {
        42
    } else if code == 18114114106 {
        43
    } else if code == 13111116114 {
        44
    } else if code == 14119095101 {
        45
    } else if code == 14099095101 {
        46
    } else if code == 10114113101 {
        47
    } else if code == 19101113101 {
        48
    } else if code == 21114101113 {
        49
    } else if code == 19115113101 {
        50
    } else if code == 19108097101 {
        51
    } else if code == 9101111099 {
        52
    } else {
        -1
    }
}

proof fn session_rows_have_places(i: int)
    requires
        0 <= i < 15,
    ensures
        session_rows().len() == 15,
        place_of(name_code(session_rows()[i].name@)) == 0 + i,
{
    if i == 0 {
        reveal_strlit("list_sessions");
        assert(name_code("list_sessions"@) == 13108115115);
    } else if i == 1 {
        reveal_strlit("list_projects");
        assert(name_code("list_projects"@) == 13108112111);
    } else if i == 2 {
        reveal_strlit("list_devices");
        assert(name_code("list_devices"@) == 12108100118);
    } else if i == 3 {
        reveal_strlit("read_session");
        assert(name_code("read_session"@) == 12114115115);
    } else if i == 4 {
        reveal_strlit("focus_session");
        assert(name_code("focus_session"@) == 13102095101);
    } else if i == 5 {
        reveal_strlit("select_project");
        assert(name_code("select_project"@) == 14115116112);
    } else if i == 6 {
        reveal_strlit("create_session");
        assert(name_code("create_session"@) == 14099101115);
    } else if i == 7 {
        reveal_strlit("send_message");
        assert(name_code("send_message"@) == 12115109115);
    } else if i == 8 {
        reveal_strlit("steer_session");
        assert(name_code("steer_session"@) == 13115095101);
    } else if i == 9 {
        reveal_strlit("stop_session");
        assert(name_code("stop_session"@) == 12115115115);
    } else if i == 10 {
        reveal_strlit("respond_to_question");
        assert(name_code("respond_to_question"@) == 19114110095);
    } else if i == 11 {
        reveal_strlit("rename_session");
        assert(name_code("rename_session"@) == 14114101115);
    } else if i == 12 {
        reveal_strlit("archive_session");
        assert(name_code("archive_session"@) == 15097118095);
    } else if i == 13 {
        reveal_strlit("delete_session");
        assert(name_code("delete_session"@) == 14100101115);
    } else if i == 14 {
        reveal_strlit("set_session_config");
        assert(name_code("set_session_config"@) == 18115101115);
    }
}

proof fn panel_rows_have_places(i: int)
    requires
        0 <= i < 8,
    ensures
        panel_rows().len() == 8,
        place_of(name_code(panel_rows()[i].name@)) == 15 + i,
{
    if i == 0 {
        reveal_strlit("set_composer_text");
        assert(name_code("set_composer_text"@) == 17115111112);
    } else if i == 1 {
        reveal_strlit("show_diff");
        assert(name_code("show_diff"@) == 9115100102);
    } else if i == 2 {
        reveal_strlit("open_file");
        assert(name_code("open_file"@) == 9111102108);
    } else if i == 3 {
        reveal_strlit("open_browser");
        assert(name_code("open_browser"@) == 12111098111);
    } else if i == 4 {
        reveal_strlit("open_settings");
        assert(name_code("open_settings"@) == 13111115116);
    } else if i == 5 {
        reveal_strlit("list_native_actions");
        assert(name_code("list_native_actions"@) == 19108110116);
    } else if i == 6 {
        reveal_strlit("dispatch_native_action");
        assert(name_code("dispatch_native_action"@) == 22100116104);
    } else if i == 7 {
        reveal_strlit("set_theme");
        assert(name_code("set_theme"@) == 9115104109);
    }
}

proof fn device_rows_have_places(i: int)
    requires
        0 <= i < 7,
    ensures
        device_rows().len() == 7,
        place_of(name_code(device_rows()[i].name@)) == 23 + i,
{
    if i == 0 {
        reveal_strlit("list_harnesses");
        assert(name_code("list_harnesses"@) == 14108104114);
    } else if i == 1 {
        reveal_strlit("list_models");
        assert(name_code("list_models"@) == 11108109100);
    } else if i == 2 {
        reveal_strlit("list_commands");
        assert(name_code("list_commands"@) == 13108099109);
    } else if i == 3 {
        reveal_strlit("rename_project");
        assert(name_code("rename_project"@) == 14114101112);
    } else if i == 4 {
        reveal_strlit("add_project");
        assert(name_code("add_project"@) == 11097114106);
    } else if i == 5 {
        reveal_strlit("delete_project");
        assert(name_code("delete_project"@) == 14100101112);
    } else if i == 6 {
        reveal_strlit("rename_device");
        assert(name_code("rename_device"@) == 13114101100);
    }
}

proof fn repository_rows_have_places(i: int)
    requires
        0 <= i < 8,
    ensures
        repository_rows().len() == 8,
        place_of(name_code(repository_rows()[i].name@)) == 30 + i,
{
    if i == 0 {
        reveal_strlit("list_repos");
        assert(name_code("list_repos"@) == 10108114112);
    } else if i == 1 {
        reveal_strlit("list_folders");
        assert(name_code("list_folders"@) == 12108102108);
    } else if i == 2 {
        reveal_strlit("list_branches");
        assert(name_code("list_branches"@) == 13108098097);
    } else if i == 3 {
        reveal_strlit("list_refs");
        assert(name_code("list_refs"@) == 9108114102);
    } else if i == 4 {
        reveal_strlit("fetch_refs");
        assert(name_code("fetch_refs"@) == 10102095101);
    } else if i == 5 {
        reveal_strlit("switch_ref");
        assert(name_code("switch_ref"@) == 10115104114);
    } else if i == 6 {
        reveal_strlit("create_worktree");
        assert(name_code("create_worktree"@) == 15099101119);
    } else if i == 7 {
        reveal_strlit("delete_worktree");
        assert(name_code("delete_worktree"@) == 15100101119);
    }
}

proof fn file_rows_have_places(i: int)
    requires
        0 <= i < 4,
    ensures
        file_rows().len() == 4,
        place_of(name_code(file_rows()[i].name@)) == 38 + i,
{
    if i == 0 {
        reveal_strlit("search_files");
        assert(name_code("search_files"@) == 12115104102);
    } else if i == 1 {
        reveal_strlit("list_directory");
        assert(name_code("list_directory"@) == 14108100114);
    } else if i == 2 {
        reveal_strlit("read_file");
        assert(name_code("read_file"@) == 9114102108);
    } else if i == 3 {
        reveal_strlit("write_file");
        assert(name_code("write_file"@) == 10119095105);
    }
}

proof fn terminal_rows_have_places(i: int)
    requires
        0 <= i < 5,
    ensures
        terminal_rows().len() == 5,
        place_of(name_code(terminal_rows()[i].name@)) == 42 + i,
{
    if i == 0 {
        reveal_strlit("list_project_actions");
        assert(name_code("list_project_actions"@) == 20108112111);
    } else if i == 1 {
        reveal_strlit("run_project_action");
        assert(name_code("run_project_action"@) == 18114114106);
    } else if i == 2 {
        reveal_strlit("open_terminal");
        assert(name_code("open_terminal"@) == 13111116114);
    } else if i == 3 {
        reveal_strlit("write_terminal");
        assert(name_code("write_terminal"@) == 14119095101);
    } else if i == 4 {
        reveal_strlit("close_terminal");
        assert(name_code("close_terminal"@) == 14099095101);
    }
}

proof fn queue_rows_have_places(i: int)
    requires
        0 <= i < 6,
    ensures
        queue_rows().len() == 6,
        place_of(name_code(queue_rows()[i].name@)) == 47 + i,
{
    if i == 0 {
        reveal_strlit("read_queue");
        assert(name_code("read_queue"@) == 10114113101);
    } else if i == 1 {
        reveal_strlit("edit_queued_message");
        assert(name_code("edit_queued_message"@) == 19101113101);
    } else if i == 2 {
        reveal_strlit("remove_queued_message");
        assert(name_code("remove_queued_message"@) == 21114101113);
    } else if i == 3 {
        reveal_strlit("send_queued_message");
        assert(name_code("send_queued_message"@) == 19115113101);
    } else if i == 4 {
        reveal_strlit("list_agent_accounts");
        assert(name_code("list_agent_accounts"@) == 19108097101);
    } else if i == 5 {
        reveal_strlit("end_voice");
        assert(name_code("end_voice"@) == 9101111099);
    }
}

/// The place of each name in the catalog is its own.
proof fn rows_have_places(i: int)
    requires
        0 <= i < catalog_rows().len(),
    ensures
        place_of(name_code(catalog_rows()[i].name@)) == i,
{
    session_rows_have_places(0);
    panel_rows_have_places(0);
    device_rows_have_places(0);
    repository_rows_have_places(0);
    file_rows_have_places(0);
    terminal_rows_have_places(0);
    queue_rows_have_places(0);
    if i < 15 {
        session_rows_have_places(i - 0);
        assert(catalog_rows()[i] == session_rows()[i - 0]);
    } else if i < 23 {
        panel_rows_have_places(i - 15);
        assert(catalog_rows()[i] == panel_rows()[i - 15]);
    } else if i < 30 {
        device_rows_have_places(i - 23);
        assert(catalog_rows()[i] == device_rows()[i - 23]);
    } else if i < 38 {
        repository_rows_have_places(i - 30);
        assert(catalog_rows()[i] == repository_rows()[i - 30]);
    } else if i < 42 {
        file_rows_have_places(i - 38);
        assert(catalog_rows()[i] == file_rows()[i - 38]);
    } else if i < 47 {
        terminal_rows_have_places(i - 42);
        assert(catalog_rows()[i] == terminal_rows()[i - 42]);
    } else {
        queue_rows_have_places(i - 47);
        assert(catalog_rows()[i] == queue_rows()[i - 47]);
    }
}

/// No two actions of the catalog share a name.
pub proof fn action_names_are_unique(i: int, j: int)
    requires
        0 <= i < catalog_rows().len(),
        0 <= j < catalog_rows().len(),
        catalog_rows()[i].name@ == catalog_rows()[j].name@,
    ensures
        i == j,
{
    rows_have_places(i);
    rows_have_places(j);
}

} // verus!
