//! What holds of a project's icon: where it is looked for, how it is decoded,
//! how long it is kept, and whose it is.
use vstd::prelude::*;
use vstd::utf8::encode_utf8;
use crate::project_icon::{
    badge_at, development_key, fresh, icon_mime_at, icon_path_at, initial_of, key_text, monogram,
    profile_of, refreshed, render_project_icon, root_place, seed_hash, since, source_of,
    split_at_sign, tone_of, tone_pair, upper_case, AuthState, Badge, Badges, EngineMode, IconCache,
    IconEvent, IconSearch, IconView, Monogram, ProjectIconRequest, ProjectIconSource, Space, Step,
    WorkspaceScope,
};
use crate::text::{trimmed, white_space};
use crate::text_laws::trimming_cuts_only_blanks;
use crate::theme::Theme;

verus! {

/// A path ends in a suffix.
pub open spec fn ends_in(path: Seq<char>, suffix: Seq<char>) -> bool {
    path.len() >= suffix.len() && path.subrange(path.len() - suffix.len(), path.len() as int)
        == suffix
}

proof fn suffixes()
    ensures
        ".ico"@ == seq!['.', 'i', 'c', 'o'],
        ".svg"@ == seq!['.', 's', 'v', 'g'],
        ".png"@ == seq!['.', 'p', 'n', 'g'],
{
    reveal_strlit(".ico");
    reveal_strlit(".svg");
    reveal_strlit(".png");
    assert(".ico"@ =~= seq!['.', 'i', 'c', 'o']);
    assert(".svg"@ =~= seq!['.', 's', 'v', 'g']);
    assert(".png"@ =~= seq!['.', 'p', 'n', 'g']);
}

/// The last four characters of a path, which tell its suffix.
proof fn told_by_the_end(path: Seq<char>)
    requires
        path.len() >= 4,
    ensures
        ends_in(path, ".ico"@) <==> path[path.len() - 4] == '.' && path[path.len() - 3] == 'i'
            && path[path.len() - 2] == 'c' && path[path.len() - 1] == 'o',
        ends_in(path, ".svg"@) <==> path[path.len() - 4] == '.' && path[path.len() - 3] == 's'
            && path[path.len() - 2] == 'v' && path[path.len() - 1] == 'g',
        ends_in(path, ".png"@) <==> path[path.len() - 4] == '.' && path[path.len() - 3] == 'p'
            && path[path.len() - 2] == 'n' && path[path.len() - 1] == 'g',
{
    suffixes();
    let end = path.subrange(path.len() - 4, path.len() as int);
    assert(end[0] == path[path.len() - 4]);
    assert(end[1] == path[path.len() - 3]);
    assert(end[2] == path[path.len() - 2]);
    assert(end[3] == path[path.len() - 1]);
    if path[path.len() - 3] == 'i' && path[path.len() - 4] == '.' && path[path.len() - 2] == 'c'
        && path[path.len() - 1] == 'o' {
        assert(end =~= seq!['.', 'i', 'c', 'o']);
    }
    if path[path.len() - 3] == 's' && path[path.len() - 4] == '.' && path[path.len() - 2] == 'v'
        && path[path.len() - 1] == 'g' {
        assert(end =~= seq!['.', 's', 'v', 'g']);
    }
    if path[path.len() - 3] == 'p' && path[path.len() - 4] == '.' && path[path.len() - 2] == 'n'
        && path[path.len() - 1] == 'g' {
        assert(end =~= seq!['.', 'p', 'n', 'g']);
    }
}

proof fn the_first_paths(i: int)
    requires
        0 <= i < 9,
    ensures
        icon_path_at(i).len() >= 4,
        i == 2 || i == 3 ==> ends_in(icon_path_at(i), ".svg"@) && !ends_in(
            icon_path_at(i),
            ".png"@,
        ) && !ends_in(icon_path_at(i), ".ico"@),
        i != 2 && i != 3 ==> ends_in(icon_path_at(i), ".png"@) && !ends_in(
            icon_path_at(i),
            ".svg"@,
        ) && !ends_in(icon_path_at(i), ".ico"@),
{
    reveal_strlit("public/apple-touch-icon.png");
    reveal_strlit("apple-touch-icon.png");
    reveal_strlit("public/favicon.svg");
    reveal_strlit("favicon.svg");
    reveal_strlit("public/favicon.png");
    reveal_strlit("public/icon.png");
    reveal_strlit("public/logo.png");
    reveal_strlit("favicon.png");
    reveal_strlit("app/icon.png");
    told_by_the_end(icon_path_at(i));
}

proof fn the_last_paths(i: int)
    requires
        9 <= i < 17,
    ensures
        icon_path_at(i).len() >= 4,
        10 <= i <= 13 ==> ends_in(icon_path_at(i), ".ico"@) && !ends_in(icon_path_at(i), ".png"@)
            && !ends_in(icon_path_at(i), ".svg"@),
        i < 10 || i > 13 ==> ends_in(icon_path_at(i), ".png"@) && !ends_in(
            icon_path_at(i),
            ".ico"@,
        ) && !ends_in(icon_path_at(i), ".svg"@),
{
    reveal_strlit("src/app/icon.png");
    reveal_strlit("public/favicon.ico");
    reveal_strlit("favicon.ico");
    reveal_strlit("app/favicon.ico");
    reveal_strlit("static/favicon.ico");
    reveal_strlit("src-tauri/icons/icon.png");
    reveal_strlit("assets/icon.png");
    reveal_strlit("src/assets/icon.png");
    told_by_the_end(icon_path_at(i));
}

/// The path a step asks for.
pub open spec fn asked_path(step: Step) -> Option<Seq<char>> {
    match step {
        Step::ReadLocal(path) => Some(path),
        Step::ReadFile(path) => Some(path),
        Step::ReadImage(path, _) => Some(path),
        _ => None,
    }
}

/// A file that was read is decoded by the extension of the path that was asked
/// for: an icon exactly where it ends in `.ico`, a drawing exactly where it
/// ends in `.svg`, and a picture exactly where it ends in `.png`.
pub proof fn a_candidate_is_decoded_by_its_extension(search: IconSearch)
    requires
        search.at < 17,
        !search.done,
    ensures
        asked_path(IconSearch::question(search.source, search.at as int)) is Some,
        ({
            let path = asked_path(IconSearch::question(search.source, search.at as int))->0;
            let step = search.answer(IconEvent::Read);
            &&& step == Step::Decode("image/x-icon"@) <==> ends_in(path, ".ico"@)
            &&& step == Step::Decode("image/svg+xml"@) <==> ends_in(path, ".svg"@)
            &&& step == Step::Decode("image/png"@) <==> ends_in(path, ".png"@)
            &&& ends_in(path, ".ico"@) || ends_in(path, ".svg"@) || ends_in(path, ".png"@)
        }),
{
    if search.at < 9 {
        the_first_paths(search.at as int);
    } else {
        the_last_paths(search.at as int);
    }
    reveal_strlit("image/x-icon");
    reveal_strlit("image/svg+xml");
    reveal_strlit("image/png");
    assert("image/x-icon"@.len() == 12);
    assert("image/svg+xml"@.len() == 13);
    assert("image/png"@.len() == 9);
}

/// The media type of each place is that of its path.
pub proof fn media_types_match_their_paths(i: int)
    requires
        0 <= i < 17,
    ensures
        icon_mime_at(i) == "image/x-icon"@ <==> ends_in(icon_path_at(i), ".ico"@),
        icon_mime_at(i) == "image/svg+xml"@ <==> ends_in(icon_path_at(i), ".svg"@),
        icon_mime_at(i) == "image/png"@ <==> ends_in(icon_path_at(i), ".png"@),
{
    a_candidate_is_decoded_by_its_extension(
        IconSearch { source: ProjectIconSource::LocalFs, at: i as usize, done: false },
    );
}

/// An answer ends a search, moves it on to the next place, or has the image of
/// the same place fetched; behind the last place there is no icon.
pub proof fn an_answer_is_followed(search: IconSearch, checkout: String, mime: String)
    requires
        search.at < 17,
        !search.done,
    ensures
        search.answer(IconEvent::Unreadable) is GiveUp,
        search.answer(IconEvent::Refused { retryable: true }) is GiveUp,
        search.answer(IconEvent::Refused { retryable: false }) == search.answer(
            IconEvent::Missing,
        ),
        search.answer(IconEvent::Image { mime }) == Step::Decode(mime@),
        search.answer(IconEvent::Listed { checkout }) matches Step::ReadImage(path, from) && from
            == checkout@ && Some(path) == asked_path(
            IconSearch::question(search.source, search.at as int),
        ),
        search.at == 16 ==> search.answer(IconEvent::Missing) is GiveUp,
        search.at < 16 ==> asked_path(search.answer(IconEvent::Missing)) == asked_path(
            IconSearch::question(search.source, search.at + 1),
        ),
        search.at < 16 && search.source is LocalFs ==> search.answer(IconEvent::Missing)
            is ReadLocal,
        search.at < 16 && search.source is WorkspaceRpc ==> search.answer(IconEvent::Missing)
            is ReadFile,
{
}

/// The places are tried best first: the touch icons, then the drawings, then
/// the web pictures, then the old icons; in each kind the public one first.
pub proof fn places_are_tried_best_first()
    ensures
        icon_path_at(0) == "public/apple-touch-icon.png"@,
        icon_path_at(1) == "apple-touch-icon.png"@,
        forall|i: int, j: int|
            0 <= i < 17 && 0 <= j < 17 && ends_in(#[trigger] icon_path_at(i), ".svg"@) && ends_in(
                #[trigger] icon_path_at(j),
                ".ico"@,
            ) ==> i < j,
        forall|i: int|
            2 <= i < 17 && ends_in(#[trigger] icon_path_at(i), ".svg"@) ==> i <= 3,
        icon_path_at(2) == "public/favicon.svg"@ && icon_path_at(3) == "favicon.svg"@,
        icon_path_at(4) == "public/favicon.png"@ && icon_path_at(5) == "public/icon.png"@,
        icon_path_at(6) == "public/logo.png"@ && icon_path_at(7) == "favicon.png"@,
        icon_path_at(8) == "app/icon.png"@ && icon_path_at(9) == "src/app/icon.png"@,
        icon_path_at(10) == "public/favicon.ico"@ && icon_path_at(11) == "favicon.ico"@,
        icon_path_at(12) == "app/favicon.ico"@ && icon_path_at(13) == "static/favicon.ico"@,
        icon_path_at(14) == "src-tauri/icons/icon.png"@,
        icon_path_at(15) == "assets/icon.png"@ && icon_path_at(16) == "src/assets/icon.png"@,
{
    assert forall|i: int| 0 <= i < 17 implies (ends_in(#[trigger] icon_path_at(i), ".svg"@) <==> i
        == 2 || i == 3) && (ends_in(icon_path_at(i), ".ico"@) <==> 10 <= i <= 13) by {
        if i < 9 {
            the_first_paths(i);
        } else {
            the_last_paths(i);
        }
    }
}

/// The disk is read directly exactly where the engine runs in this process and
/// the project lives on its device.
pub proof fn only_a_shared_disk_is_read(
    mode: Option<EngineMode>,
    local: Option<Seq<char>>,
    device: Seq<char>,
)
    ensures
        source_of(mode, local, device) is LocalFs <==> (mode matches Some(EngineMode::InProcess))
            && local == Some(device),
{
}

/// The checkout's root is the innermost directory that holds a repository, and
/// the directory itself where none does.
pub proof fn the_innermost_repository_is_the_root(repositories: Seq<bool>, at: int)
    requires
        0 <= at < repositories.len(),
        forall|i: int| 0 <= i < at ==> !repositories[i],
    ensures
        repositories[at] ==> root_place(repositories) == at,
        (forall|i: int| 0 <= i < repositories.len() ==> !repositories[i]) ==> root_place(
            repositories,
        ) == 0,
    decreases at,
{
    if repositories[at] {
        assert(repositories.contains(true));
        if at > 0 {
            let rest = repositories.subrange(1, repositories.len() as int);
            assert(rest[at - 1] == repositories[at]);
            assert forall|i: int| 0 <= i < at - 1 implies !rest[i] by {
                assert(rest[i] == repositories[i + 1]);
            }
            the_innermost_repository_is_the_root(rest, at - 1);
        }
    }
}

/// One more byte is mixed into the hash by exclusive-or, and then the hash is
/// multiplied, modulo its range; no bytes hash to the basis.
pub proof fn a_byte_is_mixed_in(bytes: Seq<u8>, byte: u8)
    ensures
        seed_hash(Seq::<u8>::empty()) == 2166136261u32,
        seed_hash(bytes.push(byte)) as int == ((seed_hash(bytes) ^ (byte as u32)) as int * 16777619)
            % 0x1_0000_0000,
{
    assert(bytes.push(byte).drop_last() =~= bytes);
}

/// A project keeps its tone, by its seed alone; the appearance only picks the
/// variant.
pub proof fn a_tone_is_the_seeds(seed: Seq<char>, other: Seq<char>, theme: Theme)
    ensures
        seed_hash(encode_utf8(seed)) % 8 == seed_hash(encode_utf8(other)) % 8 ==> tone_of(
            seed,
            theme,
        ) == tone_of(other, theme),
{
}

/// The eight tones are told apart, on either background.
pub proof fn tones_are_told_apart(i: int, j: int)
    requires
        0 <= i < j < 8,
    ensures
        tone_pair(i).0 != tone_pair(j).0,
        tone_pair(i).1 != tone_pair(j).1,
        tone_pair(i).0 != tone_pair(i).1,
{
}

/// A monogram is made from the first character of the name that is not blank,
/// and is a question mark for a blank name.
pub proof fn a_monogram_is_the_first_letter(name: Seq<char>, at: int)
    requires
        0 <= at <= name.len(),
        forall|i: int| 0 <= i < at ==> white_space(#[trigger] name[i]),
        at < name.len() ==> !white_space(name[at]),
    ensures
        at < name.len() ==> initial_of(name) == name[at],
        at == name.len() ==> initial_of(name) == '?',
{
    let cut = trimming_cuts_only_blanks(name);
    if at < name.len() {
        assert(cut.0 == at) by {
            if at < cut.0 {
                assert(white_space(name[at]));
            } else if cut.0 < at {
                if cut.0 < cut.1 {
                    assert(white_space(name[cut.0]));
                } else {
                    assert(white_space(name[at]));
                }
            }
        }
        assert(cut.0 < cut.1) by {
            if cut.1 <= at {
                assert(white_space(name[at]));
            }
        }
        assert(trimmed(name)[0] == name[at]);
    } else if cut.0 < cut.1 {
        assert(white_space(name[cut.0]));
    }
}

/// A text is parted at its first `@`.
pub proof fn a_user_is_parted_at_the_first_sign(name: Seq<char>, org: Seq<char>)
    requires
        forall|i: int| 0 <= i < name.len() ==> name[i] != '@',
    ensures
        split_at_sign(name + seq!['@'] + org) == Some((name, org)),
        split_at_sign(name) is None,
    decreases name.len(),
{
    let whole = name + seq!['@'] + org;
    if name.len() == 0 {
        assert(whole.subrange(1, whole.len() as int) =~= org);
        assert(name =~= Seq::empty());
    } else {
        let rest = name.subrange(1, name.len() as int);
        assert(whole.subrange(1, whole.len() as int) =~= rest + seq!['@'] + org);
        assert forall|i: int| 0 <= i < rest.len() implies rest[i] != '@' by {
            assert(rest[i] == name[i + 1]);
        }
        a_user_is_parted_at_the_first_sign(rest, org);
        assert(seq![name[0]] + rest =~= name);
    }
}

/// A development profile is its user's, in the organization the user names,
/// else the configured one, else the engine's; a nameless user has none.
pub proof fn a_development_profile_is_its_users(
    name: Seq<char>,
    org: Seq<char>,
    configured: Option<Seq<char>>,
    engine_org: Seq<char>,
)
    requires
        forall|i: int| 0 <= i < name.len() ==> name[i] != '@',
    ensures
        name.len() > 0 && org.len() > 0 ==> development_key(
            name + seq!['@'] + org,
            configured,
            engine_org,
        ) == Some("development:"@ + org + ":"@ + name),
        name.len() > 0 && configured is Some && configured->0.len() > 0 ==> development_key(
            name,
            configured,
            engine_org,
        ) == Some("development:"@ + configured->0 + ":"@ + name),
        name.len() > 0 && configured is None ==> development_key(name, configured, engine_org)
            == Some("development:"@ + engine_org + ":"@ + name),
        name.len() == 0 ==> development_key(name + seq!['@'] + org, configured, engine_org)
            is None,
{
    a_user_is_parted_at_the_first_sign(name, org);
}

/// A profile is known for this machine, for a member of an organization, and
/// for a developer; and for nobody else.
pub proof fn a_profile_needs_its_user(
    auth: Option<AuthState>,
    user_id: String,
    org_id: String,
    configured: Option<Seq<char>>,
    engine_org: Seq<char>,
)
    ensures
        profile_of(None, auth, configured, engine_org) is None,
        profile_of(Some(WorkspaceScope::Local), auth, configured, engine_org) == Some("local"@),
        profile_of(
            Some(WorkspaceScope::Synced),
            Some(AuthState::SignedIn { user_id, org_id: Some(org_id) }),
            configured,
            engine_org,
        ) == Some("synced:"@ + org_id@ + ":"@ + user_id@),
        profile_of(
            Some(WorkspaceScope::Synced),
            Some(AuthState::SignedIn { user_id, org_id: None }),
            configured,
            engine_org,
        ) is None,
        profile_of(
            Some(WorkspaceScope::Development),
            Some(AuthState::SignedIn { user_id, org_id: None }),
            configured,
            engine_org,
        ) == development_key(user_id@, configured, engine_org),
        !(auth matches Some(AuthState::SignedIn { .. })) ==> profile_of(
            Some(WorkspaceScope::Synced),
            auth,
            configured,
            engine_org,
        ) is None && profile_of(
            Some(WorkspaceScope::Development),
            auth,
            configured,
            engine_org,
        ) is None,
{
}

/// Badges of two names have different keys.
pub proof fn badges_of_names_are_kept_apart(
    profile: Seq<char>,
    source: ProjectIconSource,
    device: Seq<char>,
    target: Seq<char>,
    cwd: Seq<char>,
    checkout: Seq<char>,
    name: Seq<char>,
    other: Seq<char>,
)
    requires
        other != name,
    ensures
        key_text(profile, source, device, target, cwd, checkout, other) != key_text(
            profile,
            source,
            device,
            target,
            cwd,
            checkout,
            name,
        ),
{
    let named = crate::project_icon::source_name(source);
    let key = key_text(profile, source, device, target, cwd, checkout, name);
    let front = profile + ":"@ + named + ":"@ + device + ":"@ + target + ":"@ + cwd + ":"@ + checkout + ":"@;
    let back = Seq::<char>::empty();
    assert(key =~= front + name + back);
    assert(key_text(profile, source, device, target, cwd, checkout, other) =~= front + other + back);
    framed_texts_differ(front, name, other, back);
}

/// Badges of two directories have different keys.
pub proof fn badges_of_directories_are_kept_apart(
    profile: Seq<char>,
    source: ProjectIconSource,
    device: Seq<char>,
    target: Seq<char>,
    cwd: Seq<char>,
    checkout: Seq<char>,
    name: Seq<char>,
    other: Seq<char>,
)
    requires
        other != cwd,
    ensures
        key_text(profile, source, device, target, other, checkout, name) != key_text(
            profile,
            source,
            device,
            target,
            cwd,
            checkout,
            name,
        ),
{
    let named = crate::project_icon::source_name(source);
    let key = key_text(profile, source, device, target, cwd, checkout, name);
    let front = profile + ":"@ + named + ":"@ + device + ":"@ + target + ":"@;
    let back = ":"@ + checkout + ":"@ + name;
    assert(key =~= front + cwd + back);
    assert(key_text(profile, source, device, target, other, checkout, name) =~= front + other + back);
    framed_texts_differ(front, cwd, other, back);
}

/// Badges of two engines have different keys.
pub proof fn badges_of_engines_are_kept_apart(
    profile: Seq<char>,
    source: ProjectIconSource,
    device: Seq<char>,
    target: Seq<char>,
    cwd: Seq<char>,
    checkout: Seq<char>,
    name: Seq<char>,
    other: Seq<char>,
)
    requires
        other != device,
    ensures
        key_text(profile, source, other, target, cwd, checkout, name) != key_text(
            profile,
            source,
            device,
            target,
            cwd,
            checkout,
            name,
        ),
{
    let named = crate::project_icon::source_name(source);
    let key = key_text(profile, source, device, target, cwd, checkout, name);
    let front = profile + ":"@ + named + ":"@;
    let back = ":"@ + target + ":"@ + cwd + ":"@ + checkout + ":"@ + name;
    assert(key =~= front + device + back);
    assert(key_text(profile, source, other, target, cwd, checkout, name) =~= front + other + back);
    framed_texts_differ(front, device, other, back);
}

/// Two texts between the same ends are equal only where they are.
proof fn framed_texts_differ(front: Seq<char>, a: Seq<char>, b: Seq<char>, back: Seq<char>)
    ensures
        a != b ==> front + a + back != front + b + back,
{
    if front + a + back =~= front + b + back {
        let whole = front + a + back;
        let other = front + b + back;
        assert(whole.len() == front.len() + a.len() + back.len());
        assert(other.len() == front.len() + b.len() + back.len());
        assert(whole.subrange(front.len() as int, (front.len() + a.len()) as int) =~= a);
        assert(other.subrange(front.len() as int, (front.len() + b.len()) as int) =~= b);
    }
}

/// The badge under a key is the first kept there.
proof fn the_badge_is_the_first(badges: Seq<Badge>, key: Seq<char>)
    ensures
        badge_at(badges, key) is None <==> (forall|i: int|
            0 <= i < badges.len() ==> (#[trigger] badges[i]).key != key),
        badge_at(badges, key) matches Some(badge) ==> badge.key == key && badges.contains(badge),
    decreases badges.len(),
{
    if badges.len() > 0 && badges[0].key != key {
        let rest = badges.subrange(1, badges.len() as int);
        the_badge_is_the_first(rest, key);
        assert forall|i: int| 0 <= i < rest.len() implies rest[i] == #[trigger] badges[i + 1] by {}
        if badge_at(rest, key) is None {
            assert forall|i: int| 0 <= i < badges.len() implies (#[trigger] badges[i]).key != key by {
                if i > 0 {
                    assert(rest[i - 1] == badges[i]);
                }
            }
        } else {
            let at = rest.index_of(badge_at(rest, key)->0);
            assert(badges[at + 1] == rest[at]);
        }
    } else if badges.len() > 0 {
        assert(badges[0] == badge_at(badges, key)->0);
    }
}

/// A badge that was looked up is kept for five minutes: until then it is not
/// loaded again and shows what its search found; from then on it is loaded
/// anew.
pub proof fn a_badge_is_kept_for_five_minutes(
    cache: Badges,
    key: Seq<char>,
    begun: u64,
    found: bool,
    later: u64,
)
    requires
        badge_at(cache.current(key, begun).badges, key) is None,
        begun <= later,
    ensures
        ({
            let kept = cache.looked_up(key, begun).settled(key, found);
            let now = badge_at(kept.current(key, later).badges, key);
            &&& later - begun < 300_000 ==> now is Some && now->0.artwork == found
            &&& later - begun >= 300_000 ==> now is None
        }),
{
    broadcast use vstd::seq_lib::group_filter_ensures;

    let current = cache.current(key, begun);
    the_badge_is_the_first(current.badges, key);
    let looked = cache.looked_up(key, begun);
    let kept = looked.settled(key, found);
    let badge = Badge { key, refreshed_ms: begun, artwork: found };
    assert(looked.badges == current.badges.push(
        Badge { key, refreshed_ms: begun, artwork: false },
    ));
    assert(kept.badges =~= current.badges.push(badge)) by {
        assert forall|i: int| 0 <= i < current.badges.len() implies kept.badges[i]
            == current.badges[i] by {
            assert(current.badges[i].key != key);
        }
    }
    assert forall|i: int| 0 <= i < kept.badges.len() && (
    #[trigger] kept.badges[i]).key == key implies kept.badges[i] == badge by {
        if i < current.badges.len() {
            assert(current.badges[i].key != key);
        }
    }
    assert(kept.badges[current.badges.len() as int] == badge);
    only_fresh_badges_are_found(kept, key, later, badge);
}

/// Where one badge is kept under a key, a later look finds it exactly while it
/// is fresh.
proof fn only_fresh_badges_are_found(kept: Badges, key: Seq<char>, later: u64, badge: Badge)
    requires
        badge.key == key,
        kept.badges.contains(badge),
        forall|i: int|
            0 <= i < kept.badges.len() && (#[trigger] kept.badges[i]).key == key ==> kept.badges[i]
                == badge,
    ensures
        badge_at(kept.current(key, later).badges, key) == (if since(badge.refreshed_ms, later)
            < 300_000 {
            Some(badge)
        } else {
            None
        }),
{
    let due = since(kept.pruned_ms, later) >= 60_000;
    let swept = if due {
        fresh(kept.badges, later)
    } else {
        kept.badges
    };
    let found = refreshed(swept, key, later);
    assert(kept.current(key, later).badges == found);
    let is_fresh = |badge: Badge| since(badge.refreshed_ms, later) < 300_000;
    let stays = |badge: Badge| badge.key != key || since(badge.refreshed_ms, later) < 300_000;
    assert(swept == if due {
        kept.badges.filter(is_fresh)
    } else {
        kept.badges
    }) by {
        assert(fresh(kept.badges, later) == kept.badges.filter(is_fresh)) by {
            assert((|badge: Badge| since(badge.refreshed_ms, later)
                < crate::project_icon::ICON_TTL_MS) =~= is_fresh);
        }
    }
    assert(found == swept.filter(stays)) by {
        assert((|badge: Badge|
            badge.key != key || since(badge.refreshed_ms, later)
                < crate::project_icon::ICON_TTL_MS) =~= stays);
    }
    the_badge_is_the_first(found, key);
    kept_by_a_filter(kept.badges, is_fresh, badge);
    kept_by_a_filter(swept, stays, badge);
    if badge_at(found, key) is Some {
        let shown = badge_at(found, key)->0;
        kept_by_a_filter(swept, stays, shown);
        kept_by_a_filter(kept.badges, is_fresh, shown);
        assert(kept.badges.contains(shown));
        let at = kept.badges.index_of(shown);
        assert(kept.badges[at].key == key);
        assert(shown == badge);
    } else if since(badge.refreshed_ms, later) < 300_000 {
        assert(found.contains(badge));
        let at = found.index_of(badge);
        assert(found[at].key != key);
    }
}

proof fn kept_by_a_filter(badges: Seq<Badge>, stays: spec_fn(Badge) -> bool, badge: Badge)
    ensures
        badges.filter(stays).contains(badge) <==> badges.contains(badge) && stays(badge),
    decreases badges.len(),
{
    reveal(Seq::filter);
    let kept = badges.filter(stays);
    if badges.len() > 0 {
        let front = badges.drop_last();
        kept_by_a_filter(front, stays, badge);
        let before = front.filter(stays);
        if before.contains(badge) {
            assert(kept[before.index_of(badge)] == badge);
        }
        if front.contains(badge) {
            assert(badges[front.index_of(badge)] == badge);
        }
        if badges.contains(badge) {
            let at = badges.index_of(badge);
            if at < front.len() {
                assert(front[at] == badge);
            } else if stays(badge) {
                assert(kept[before.len() as int] == badge);
            }
        }
        if kept.contains(badge) {
            let at = kept.index_of(badge);
            if at < before.len() {
                assert(before[at] == badge);
            } else {
                assert(badges[badges.len() - 1] == badge);
            }
        }
    }
}

/// Looking one badge up never shows another's: a fresh badge of another key is
/// still kept as it was.
pub proof fn other_badges_stay(cache: Badges, key: Seq<char>, now: u64, other: Badge, found: bool)
    requires
        cache.badges.contains(other),
        other.key != key,
        since(other.refreshed_ms, now) < 300_000,
    ensures
        cache.looked_up(key, now).badges.contains(other),
        cache.settled(key, found).badges.contains(other),
{
    let due = since(cache.pruned_ms, now) >= 60_000;
    let swept = if due {
        fresh(cache.badges, now)
    } else {
        cache.badges
    };
    let is_fresh = |badge: Badge|
        since(badge.refreshed_ms, now) < crate::project_icon::ICON_TTL_MS;
    let stays = |badge: Badge|
        badge.key != key || since(badge.refreshed_ms, now) < crate::project_icon::ICON_TTL_MS;
    assert(fresh(cache.badges, now) == cache.badges.filter(is_fresh));
    assert(refreshed(swept, key, now) == swept.filter(stays));
    kept_by_a_filter(cache.badges, is_fresh, other);
    kept_by_a_filter(swept, stays, other);
    let current = cache.current(key, now).badges;
    assert(current.contains(other));
    let at = current.index_of(other);
    assert(cache.looked_up(key, now).badges[at] == other);
    let place = cache.badges.index_of(other);
    assert(cache.settled(key, found).badges[place] == other);
}

/// The time since an instant is how much later it is, and nothing for one that
/// lies ahead.
pub proof fn time_never_runs_backwards(at: u64, now: u64)
    ensures
        at <= now ==> since(at, now) == now - at,
        now <= at ==> since(at, now) == 0,
{
}

/// A session's badge is asked for by its project: its name, its path, and the
/// device it lives on, unless that is this one.
pub proof fn a_badge_is_asked_for_by_its_project(
    chat: &str,
    device: Option<&str>,
    space: &Space,
    mode: Option<&EngineMode>,
    local: &Option<String>,
    r: ProjectIconRequest,
)
    requires
        call_ensures(ProjectIconRequest::resolve, (chat, device, Some(space), mode, local), r),
    ensures
        r.chat_id@ == chat@,
        r.name@ == space.display_name@ && r.seed@ == space.path@,
        device matches Some(name) ==> r.device@ == name@,
        device is None ==> r.device@ == "Unknown device"@,
        r.context matches Some(context) ==> {
            let asked = context.deep_view();
            &&& asked.space_id == space.id@ && asked.cwd == space.path@
            &&& asked.checkout_id == space.checkout_id.deep_view()
            &&& local.deep_view() == Some(space.device_id@) ==> asked.target_device_id is None
            &&& local.deep_view() != Some(space.device_id@) ==> asked.target_device_id == Some(
                space.device_id@,
            )
        },
        r.context is Some,
{
}

/// A session outside any project has a monogram of its own and looks nothing
/// up; so has one of which only the name is known.
pub proof fn a_session_without_a_project_has_a_monogram(
    chat: &str,
    name: &str,
    device: Option<&str>,
    mode: Option<&EngineMode>,
    local: &Option<String>,
    home: ProjectIconRequest,
    plain: ProjectIconRequest,
)
    requires
        call_ensures(ProjectIconRequest::resolve, (chat, device, None::<&Space>, mode, local), home),
        call_ensures(ProjectIconRequest::monogram_only, (chat, name), plain),
    ensures
        home.name@ == "Home"@ && home.seed@ == "home"@ && home.context is None,
        plain.name@ == name@ && plain.seed@ == name@ && plain.context is None,
        home.chat_id@ == chat@ && plain.chat_id@ == chat@,
        plain.device@ == "Unknown device"@,
{
}

/// A badge shows what is kept under its key: nothing yet while it loads, its
/// artwork once that is there, and the monogram where there is none. Without a
/// project, or an engine to ask, the monogram shows and nothing is looked up.
pub proof fn a_badge_shows_what_is_kept(
    cache: &mut IconCache,
    request: &ProjectIconRequest,
    key: &str,
    engine: bool,
    now: u64,
    r: IconView,
)
    requires
        call_ensures(render_project_icon, (cache, request, key, engine, now), r),
    ensures
        request.context is None || (request.source is WorkspaceRpc && !engine) ==> r is Monogram
            && final(cache)@ == old(cache)@,
        request.context is Some && (engine || !(request.source is WorkspaceRpc)) ==> {
            let kept = badge_at(old(cache)@.current(key@, now).badges, key@);
            &&& r is Loading <==> kept is None
            &&& r is Artwork <==> kept is Some && kept->0.artwork
            &&& r is Monogram <==> kept is Some && !kept->0.artwork
        },
{
}

/// A monogram is the name's letter in the seed's tone, washed stronger where
/// its row is selected.
pub proof fn a_selected_monogram_is_washed_stronger(
    name: &str,
    seed: &str,
    theme: &Theme,
    plain: Monogram,
    selected: Monogram,
)
    requires
        call_ensures(monogram, (name, seed, false, theme), plain),
        call_ensures(monogram, (name, seed, true, theme), selected),
    ensures
        plain.letter@ == selected.letter@ && plain.letter@ == upper_case(initial_of(name@)),
        plain.tone == selected.tone,
        plain.wash < selected.wash,
{
}

} // verus!
