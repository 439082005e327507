//! What holds of the controls of sessions, and of the files arrangements are
//! kept in.
use vstd::prelude::*;
use vstd::utf8::encode_utf8;
use crate::layout::{Layout, Pane, PaneId};
use crate::layout_file::{hex_text, identity, layout_path, name_for_digest, sha256};
use crate::project_icon::{AuthState, WorkspaceScope};
use crate::session_surface::{
    chat_sessions, ensure_session_surfaces, live, surface_panes, NativeSurfaces, Shown,
};

verus! {

/// The chat panes are listed with their sessions, in order, and no terminal is.
pub proof fn chat_panes_are_listed(panes: Seq<Pane>)
    ensures
        chat_sessions(panes) == panes.filter(|pane: Pane| pane.mode is Chat).map_values(
            |pane: Pane| Shown { pane: pane.pane, session: pane.session },
        ),
    decreases panes.len(),
{
    reveal(Seq::filter);
    let chats = |pane: Pane| pane.mode is Chat;
    let shown = |pane: Pane| Shown { pane: pane.pane, session: pane.session };
    if panes.len() > 0 {
        let front = panes.drop_last();
        chat_panes_are_listed(front);
        if chats(panes.last()) {
            assert(front.filter(chats).push(panes.last()).map_values(shown) =~= front.filter(
                chats,
            ).map_values(shown).push(shown(panes.last())));
        }
    }
    assert(chat_sessions(panes) =~= panes.filter(chats).map_values(shown));
}

/// Where a single session shows, the focused pane alone has a control, for the
/// selected session; in the workspace every chat pane has its own.
pub proof fn a_single_session_has_one_control(
    panes: Seq<Pane>,
    pane: PaneId,
    selected: Option<Seq<char>>,
)
    ensures
        surface_panes(panes, false, Some(pane), selected).len() == 1,
        surface_panes(panes, false, Some(pane), selected)[0] == (Shown { pane, session: selected }),
        surface_panes(panes, true, Some(pane), selected) == chat_sessions(panes),
        surface_panes(panes, false, None, selected) == chat_sessions(panes),
{
}

/// Where a single session shows, exactly the focused pane ends up with a
/// control, and it is that of the selected session.
pub proof fn the_selected_session_is_controlled(
    surfaces: &mut NativeSurfaces,
    layout: &Layout,
    selected: &Option<String>,
    r: Vec<PaneId>,
    pane: PaneId,
    other: PaneId,
)
    requires
        call_ensures(ensure_session_surfaces, (surfaces, layout, false, selected), r),
        layout@.active_pane() == Some(pane),
    ensures
        other != pane ==> !final(surfaces)@.dom().contains(other),
        selected is None ==> !final(surfaces)@.dom().contains(pane),
        selected matches Some(chat) ==> final(surfaces)@.dom().contains(pane) && final(surfaces)@[pane].chat == chat@,
{
    let panes = seq![Shown { pane, session: selected.deep_view() }];
    assert(panes[0].pane == pane);
    assert(panes.drop_last() =~= Seq::<Shown>::empty());
    reveal_with_fuel(crate::session_surface::provided, 2);
    assert(!live(panes, other) || other == pane);
    if selected is Some {
        assert(live(panes, pane));
    }
}

/// The composer gets the keyboard exactly where its session comes back from its
/// own terminal to the focused pane, once.
pub proof fn a_returning_session_gets_the_keyboard(
    surfaces: &mut NativeSurfaces,
    pane: PaneId,
    cli: bool,
    focused: Option<PaneId>,
    r: bool,
    other: PaneId,
)
    requires
        call_ensures(NativeSurfaces::observe, (surfaces, pane, cli, focused), r),
    ensures
        r ==> !cli && focused == Some(pane) && old(surfaces)@.dom().contains(pane) && old(surfaces)@[pane].was_cli,
        old(surfaces)@.dom().contains(pane) && old(surfaces)@[pane].was_cli && !cli && focused
            == Some(pane) ==> r,
        old(surfaces)@.dom().contains(pane) ==> final(surfaces)@[pane].was_cli == cli && final(surfaces)@[pane].chat == old(surfaces)@[pane].chat,
        !old(surfaces)@.dom().contains(pane) ==> !r && final(surfaces)@ == old(surfaces)@,
        other != pane ==> final(surfaces)@[other] == old(surfaces)@[other],
{
}

/// The value of a hexadecimal digit.
pub open spec fn digit_value(digit: char) -> int {
    if '0' <= digit && digit <= '9' {
        digit as int - '0' as int
    } else {
        digit as int - 'a' as int + 10
    }
}

/// Two digits are written for each byte, and read back they give the byte.
pub proof fn hexadecimal_reads_back(bytes: Seq<u8>, i: int)
    requires
        0 <= i < bytes.len(),
    ensures
        hex_text(bytes).len() == 2 * bytes.len(),
        16 * digit_value(hex_text(bytes)[2 * i]) + digit_value(hex_text(bytes)[2 * i + 1])
            == bytes[i],
        ({
            let high = hex_text(bytes)[2 * i];
            ('0' <= high && high <= '9') || ('a' <= high && high <= 'f')
        }),
    decreases bytes.len(),
{
    let front = bytes.drop_last();
    if front.len() == 0 {
        assert(hex_text(front).len() == 0);
    } else {
        hexadecimal_reads_back(front, front.len() - 1);
    }
    if i < bytes.len() - 1 {
        hexadecimal_reads_back(front, i);
        assert(front[i] == bytes[i]);
    }
}

/// A synced profile is told by its user and organization, the development one
/// is a single one, and every other shares the plain file.
pub proof fn profiles_are_told_by_their_user(user: String, org: Option<String>)
    ensures
        identity(Some(WorkspaceScope::Development), None) == Some("development"@),
        identity(
            Some(WorkspaceScope::Development),
            Some(AuthState::SignedIn { user_id: user, org_id: org }),
        ) == Some("development"@),
        identity(
            Some(WorkspaceScope::Synced),
            Some(AuthState::SignedIn { user_id: user, org_id: org }),
        ) == Some(
            "synced:"@ + user@ + ":"@ + (if org is Some {
                org->0@
            } else {
                Seq::<char>::empty()
            }),
        ),
        identity(Some(WorkspaceScope::Synced), None) is None,
        identity(None, Some(AuthState::SignedIn { user_id: user, org_id: org })) is None,
{
}

/// A profile's file carries the digest of its identity in its name.
pub proof fn a_profile_has_its_file(
    scope: Option<WorkspaceScope>,
    auth: &Option<AuthState>,
    digest: Option<Vec<u8>>,
    path: String,
    name: String,
)
    requires
        call_ensures(layout_path, (scope, auth), path),
        call_ensures(name_for_digest, (digest,), name),
    ensures
        identity(scope, *auth) is None ==> path@ == "workspace-layout.json"@,
        identity(scope, *auth) matches Some(id) ==> path@ == "workspace-layout-"@ + hex_text(
            sha256(encode_utf8(id)),
        ) + ".json"@,
        digest is None ==> name@ == "workspace-layout.json"@,
        digest matches Some(bytes) ==> name@ == "workspace-layout-"@ + hex_text(bytes@)
            + ".json"@,
{
}

} // verus!
