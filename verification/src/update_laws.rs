//! What holds of updates: how a check, a download and an installation go on,
//! and what the user is shown of them.
use vstd::prelude::*;
use crate::clock::moment_text;
use crate::text::decimal_text;
use crate::updates::{
    guard_error, CheckOutcome, Flow, InstallStep, UpdateDeed, Updates, UpdatesPage,
};

verus! {

/// A check runs once at a time, never over an update that is underway, and
/// only where updates can be had.
pub proof fn a_check_runs_once(u: &mut Updates, manual: bool, distributed: bool, r: bool)
    requires
        call_ensures(Updates::check_for_updates, (u, manual, distributed), r),
    ensures
        r ==> !old(u)@.checking && final(u)@.checking && distributed,
        old(u)@.checking ==> !r && final(u)@ == old(u)@,
        old(u)@.flow is Downloading || old(u)@.flow is Ready || old(u)@.flow is Installing ==> !r
            && final(u)@ == old(u)@,
        !old(u)@.checking && distributed && (old(u)@.flow is Idle || old(u)@.flow is Failed) ==> r,
        final(u)@.flow == old(u)@.flow && final(u)@.release == old(u)@.release,
        final(u)@.checking ==> old(u)@.checking || r,
{
}

/// Asking by hand brings a dismissed strip back; a check in the background
/// leaves it away.
pub proof fn only_a_check_by_hand_brings_the_strip_back(
    u: &mut Updates,
    manual: bool,
    distributed: bool,
    r: bool,
)
    requires
        call_ensures(Updates::check_for_updates, (u, manual, distributed), r),
    ensures
        r && manual ==> final(u)@.dismissed is None,
        !manual ==> final(u)@.dismissed == old(u)@.dismissed,
        !r ==> final(u)@.dismissed == old(u)@.dismissed,
{
}

/// What a check found is what is offered: a newer release, and nothing where
/// there is none or the check failed.
pub proof fn only_a_newer_release_is_offered(
    u: &mut Updates,
    now: i64,
    outcome: CheckOutcome,
    nothing: (),
)
    requires
        call_ensures(Updates::update_checked, (u, now, outcome), nothing),
    ensures
        !final(u)@.checking,
        final(u)@.checked_at == moment_text(now),
        final(u)@.flow == old(u)@.flow,
        final(u)@.dismissed == old(u)@.dismissed && final(u)@.notice == old(u)@.notice,
        final(u)@.release is Some <==> (outcome matches CheckOutcome::Latest { newer, .. }
            && newer),
        outcome matches CheckOutcome::Latest { manifest, newer } ==> {
            &&& newer ==> final(u)@.release->0.version == manifest.version@
                && final(u)@.release->0.notes_url == manifest.notes_url@
                && final(u)@.status == "Version "@ + manifest.version@ + " is available."@
            &&& !newer ==> final(u)@.status == "You're up to date."@
        },
        outcome matches CheckOutcome::Failed { error } ==> final(u)@.status
            == "Could not check for updates: "@ + error@,
{
}

/// The label says where the update stands: its status while nothing runs, a
/// share while it is fetched, and the reason once it failed.
pub proof fn the_label_says_where_an_update_stands(
    u: &Updates,
    received: u64,
    total: u64,
    received_mb: &str,
    total_mb: &str,
    r: String,
)
    requires
        call_ensures(Updates::update_label, (u, received, total, received_mb, total_mb), r),
    ensures
        u@.flow is Idle ==> r@ == u@.status,
        u@.flow is Downloading && total == 0 ==> r@ == "Starting download…"@,
        u@.flow is Downloading && 0 < total <= received ==> r@
            == "Verifying and preparing update…"@,
        u@.flow is Downloading && received < total ==> r@ == "Downloading… "@ + decimal_text(
            (received as nat) * 100 / (total as nat),
        ) + "% ("@ + received_mb@ + " / "@ + total_mb@ + " MB)"@,
        u@.flow is Ready ==> r@ == "Update ready. Install and restart when your work is finished."@,
        u@.flow is Installing ==> r@ == "Installing update…"@,
        u@.flow matches Flow::Failed(message) ==> r@ == "Update failed: "@ + message,
{
}

/// The share of a download that is shown stays below one hundred until all of
/// it arrived, and never falls as more arrives.
pub proof fn the_share_of_a_download_grows(before: nat, after: nat, total: nat)
    requires
        before <= after < total,
    ensures
        before * 100 / total <= after * 100 / total < 100,
{
    vstd::arithmetic::div_mod::lemma_div_is_ordered(
        (before * 100) as int,
        (after * 100) as int,
        total as int,
    );
    vstd::arithmetic::div_mod::lemma_multiply_divide_lt(after as int * 100, total as int, 100);
}

/// The strip shows exactly while there is a release that was not dismissed.
pub proof fn a_dismissed_release_is_not_shown(
    u: &Updates,
    received: u64,
    total: u64,
    received_mb: &str,
    total_mb: &str,
    r: Option<String>,
)
    requires
        call_ensures(Updates::render_update_strip, (u, received, total, received_mb, total_mb), r),
    ensures
        r is Some <==> (u@.release is Some && u@.dismissed != Some(u@.release->0.version)),
        r is Some && u@.flow is Idle ==> r->0@ == u@.status,
{
}

/// The page offers a check only at rest, and to install only a release that
/// this installation can put in place.
pub proof fn the_page_offers_what_can_be_done(
    u: &Updates,
    app_name: &str,
    version: &str,
    channel: &str,
    commit: &str,
    managed: bool,
    received: u64,
    total: u64,
    received_mb: &str,
    total_mb: &str,
    r: UpdatesPage,
)
    requires
        call_ensures(
            Updates::render_updates_page,
            (
                u,
                app_name,
                version,
                channel,
                commit,
                managed,
                received,
                total,
                received_mb,
                total_mb,
            ),
            r,
        ),
    ensures
        r.check_button <==> !u@.checking && (u@.flow is Idle || u@.flow is Failed),
        r.install_button is Some ==> managed && u@.release is Some && !u@.checking,
        u@.checking || u@.flow is Downloading || u@.flow is Installing ==> r.install_button is None,
        managed && u@.release is Some && !u@.checking && u@.flow is Ready ==> r.install_button
            is Some && r.install_button->0@ == "Install and restart"@,
        managed && u@.release is Some && !u@.checking && (u@.flow is Idle || u@.flow is Failed)
            ==> r.install_button is Some && r.install_button->0@ == "Download update"@,
        r.unmanaged <==> !managed,
        r.status@ == u@.status,
        u@.checked_at is None <==> r.checked is None,
        u@.checked_at matches Some(at) ==> r.checked->0@ == "Last checked "@ + at,
        r.identity@ == app_name@ + " "@ + version@ + " · "@ + channel@ + " channel"@,
        r.build@ == "Build "@ + commit@,
{
}

/// Release notes open only on the site that publishes them.
pub proof fn release_notes_open_on_their_site(
    u: &Updates,
    app_name: &str,
    version: &str,
    channel: &str,
    commit: &str,
    managed: bool,
    received: u64,
    total: u64,
    received_mb: &str,
    total_mb: &str,
    r: UpdatesPage,
)
    requires
        call_ensures(
            Updates::render_updates_page,
            (
                u,
                app_name,
                version,
                channel,
                commit,
                managed,
                received,
                total,
                received_mb,
                total_mb,
            ),
            r,
        ),
    ensures
        r.release_notes matches Some(url) ==> u@.release is Some && url@ == u@.release->0.notes_url
            && url@.len() >= 19 && url@.subrange(0, 19) == "https://github.com/"@,
        u@.release matches Some(release) ==> (release.notes_url.len() >= 19
            && release.notes_url.subrange(0, 19) == "https://github.com/"@ ==> r.release_notes
            is Some),
{
    reveal_strlit("https://github.com/");
    let site = "https://github.com/"@;
    assert(site.len() == 19);
    if let Some(release) = u@.release {
        let url = release.notes_url;
        if url.len() >= 19 && url.subrange(0, 19) == site {
            assert forall|i: int| 0 <= i < 19 implies site[i] == url[i] by {
                assert(url.subrange(0, 19)[i] == url[i]);
            }
            assert(site.is_prefix_of(url));
        }
        if site.is_prefix_of(url) {
            assert(url.subrange(0, 19) =~= site);
        }
    }
}

/// A download begins exactly where there is a release.
pub proof fn a_download_needs_a_release(u: &mut Updates, r: bool)
    requires
        call_ensures(Updates::begin_update_download, (u,), r),
    ensures
        r <==> old(u)@.release is Some,
        r ==> final(u)@.flow is Downloading,
        !r ==> final(u)@.flow == old(u)@.flow,
        final(u)@.release == old(u)@.release && final(u)@.status == old(u)@.status,
{
}

/// A click moves an update on by one step: a ready one is installed from where
/// it was staged, one that runs is left alone, and else the release is fetched.
pub proof fn a_click_moves_an_update_on(u: &mut Updates, r: UpdateDeed)
    requires
        call_ensures(Updates::on_update_strip_click, (u,), r),
    ensures
        old(u)@.flow matches Flow::Ready(staged) ==> (r matches UpdateDeed::Apply { staged: path }
            && path@ == staged) && final(u)@.flow is Idle,
        old(u)@.flow is Downloading || old(u)@.flow is Installing ==> r is Nothing && final(u)@
            == old(u)@,
        (old(u)@.flow is Idle || old(u)@.flow is Failed) && old(u)@.release is Some ==> r
            is Download && final(u)@.flow is Downloading,
        r is Download <==> final(u)@.flow is Downloading && !(old(u)@.flow is Downloading),
        r is Apply <==> old(u)@.flow is Ready,
        final(u)@.release == old(u)@.release,
{
}

/// A download that arrived is ready under its path; one that failed says why.
pub proof fn a_download_ends_ready_or_failed(
    u: &mut Updates,
    result: Result<String, String>,
    nothing: (),
)
    requires
        call_ensures(Updates::download_finished, (u, result), nothing),
    ensures
        result matches Ok(staged) ==> final(u)@.flow == Flow::Ready(staged@),
        result matches Err(error) ==> final(u)@.flow == Flow::Failed(error@),
        final(u)@.release == old(u)@.release,
{
}

/// Progress is watched exactly while a download runs.
pub proof fn progress_is_watched_while_downloading(u: &Updates, r: bool)
    requires
        call_ensures(Updates::watches_progress, (u,), r),
    ensures
        r <==> u@.flow is Downloading,
{
}

/// Nothing is installed while another window is open: the update stays ready,
/// and the status says what to do.
pub proof fn other_windows_hold_an_update_back(
    u: &mut Updates,
    staged: &str,
    windows: usize,
    r: InstallStep,
)
    requires
        call_ensures(Updates::apply_staged_update, (u, staged, windows), r),
    ensures
        windows > 1 ==> r is Nothing && final(u)@.flow == Flow::Ready(staged@) && final(u)@.status
            == "Close other Noches windows before installing so their editors and local work remain safe."@,
        windows <= 1 ==> r is PrepareExit && final(u)@ == old(u)@,
{
}

/// Where the application may exit, a local engine is asked before anything is
/// installed, and one that is not there holds the update back.
pub proof fn a_local_engine_is_asked_first(
    u: &mut Updates,
    staged: &str,
    allowed: bool,
    remote: bool,
    engine: bool,
    r: InstallStep,
)
    requires
        call_ensures(Updates::exit_prepared, (u, staged, allowed, remote, engine), r),
    ensures
        !allowed ==> r is Nothing && final(u)@ == old(u)@,
        allowed && remote ==> r is SkipEngine,
        allowed && !remote && engine ==> r is AskEngine,
        allowed && !remote && !engine ==> r is Nothing && final(u)@.flow == Flow::Ready(staged@)
            && final(u)@.status == "Wait for the local engine to connect before restarting."@,
        r is SkipEngine || r is AskEngine ==> final(u)@.flow is Installing,
{
}

/// An engine that refuses keeps the update ready and says why, in the status
/// and in the sidebar; one that agrees has editors asked once more.
pub proof fn a_refusal_keeps_the_update_ready(
    u: &mut Updates,
    staged: &str,
    answer: Result<(), String>,
    r: InstallStep,
)
    requires
        call_ensures(Updates::engine_answered, (u, staged, answer), r),
    ensures
        answer is Ok ==> r is PrepareExit && final(u)@ == old(u)@,
        answer matches Err(message) ==> r is Nothing && final(u)@.flow == Flow::Ready(staged@)
            && final(u)@.status == message@ && final(u)@.notice == Some(message@),
{
}

/// An update is put in place only where the application may still exit.
pub proof fn an_update_waits_for_the_exit(
    u: &mut Updates,
    staged: &str,
    allowed: bool,
    r: InstallStep,
)
    requires
        call_ensures(Updates::exit_confirmed, (u, staged, allowed), r),
    ensures
        r is Install <==> allowed,
        r is Install || r is Nothing,
        allowed ==> final(u)@ == old(u)@,
        !allowed ==> final(u)@.flow == Flow::Ready(staged@) && final(u)@.status == old(u)@.status,
{
}

/// The application quits exactly where the update is in place; where it is not,
/// the update stays ready and the reason is shown.
pub proof fn only_an_installed_update_quits(
    u: &mut Updates,
    staged: &str,
    result: Result<(), String>,
    r: InstallStep,
)
    requires
        call_ensures(Updates::installed, (u, staged, result), r),
    ensures
        r is Quit <==> result is Ok,
        r is Quit || r is Nothing,
        result is Ok ==> final(u)@ == old(u)@,
        result matches Err(error) ==> final(u)@.flow == Flow::Ready(staged@) && final(u)@.status
            == "Could not install: "@ + error@ && final(u)@.notice == Some(final(u)@.status),
{
}

/// An engine's refusal is passed on in its own words; silence is told apart.
pub proof fn a_refusal_keeps_its_words(refusal: Option<String>, r: String)
    requires
        call_ensures(guard_error, (refusal,), r),
    ensures
        refusal matches Some(message) ==> r@ == message@,
        refusal is None ==> r@ == "The engine did not answer. Retry once it is connected."@,
{
}

} // verus!
