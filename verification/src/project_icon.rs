//! Project badges: where a repository's icon is looked for, how badges are
//! kept, and the coloured monogram that stands in for a missing icon.
use vstd::prelude::*;
use vstd::utf8::encode_utf8;
use crate::text::{
    chars_of, copy_option, is_text, join2, join3, same_text, string_of, trim_range, trimmed,
};
use crate::theme::{pick, variant, Theme, Tint};

verus! {

/// How many places an icon is looked for in.
pub const ICON_PATH_COUNT: usize = 17;

/// The places an icon is looked for in, best first.
pub open spec fn icon_path_at(i: int) -> Seq<char> {
    if i == 0 {
        "public/apple-touch-icon.png"@
    } else if i == 1 {
        "apple-touch-icon.png"@
    } else if i == 2 {
        "public/favicon.svg"@
    } else if i == 3 {
        "favicon.svg"@
    } else if i == 4 {
        "public/favicon.png"@
    } else if i == 5 {
        "public/icon.png"@
    } else if i == 6 {
        "public/logo.png"@
    } else if i == 7 {
        "favicon.png"@
    } else if i == 8 {
        "app/icon.png"@
    } else if i == 9 {
        "src/app/icon.png"@
    } else if i == 10 {
        "public/favicon.ico"@
    } else if i == 11 {
        "favicon.ico"@
    } else if i == 12 {
        "app/favicon.ico"@
    } else if i == 13 {
        "static/favicon.ico"@
    } else if i == 14 {
        "src-tauri/icons/icon.png"@
    } else if i == 15 {
        "assets/icon.png"@
    } else {
        "src/assets/icon.png"@
    }
}

pub fn icon_path(i: usize) -> (r: &'static str)
    requires
        i < ICON_PATH_COUNT,
    ensures
        r@ == icon_path_at(i as int),
{
    match i {
        0 => "public/apple-touch-icon.png",
        1 => "apple-touch-icon.png",
        2 => "public/favicon.svg",
        3 => "favicon.svg",
        4 => "public/favicon.png",
        5 => "public/icon.png",
        6 => "public/logo.png",
        7 => "favicon.png",
        8 => "app/icon.png",
        9 => "src/app/icon.png",
        10 => "public/favicon.ico",
        11 => "favicon.ico",
        12 => "app/favicon.ico",
        13 => "static/favicon.ico",
        14 => "src-tauri/icons/icon.png",
        15 => "assets/icon.png",
        _ => "src/assets/icon.png",
    }
}

/// The media type of the candidate at a place, by its extension.
pub open spec fn icon_mime_at(i: int) -> Seq<char> {
    if i == 2 || i == 3 {
        "image/svg+xml"@
    } else if 10 <= i <= 13 {
        "image/x-icon"@
    } else {
        "image/png"@
    }
}

pub fn icon_mime(i: usize) -> (r: &'static str)
    ensures
        r@ == icon_mime_at(i as int),
{
    if i == 2 || i == 3 {
        "image/svg+xml"
    } else if 10 <= i && i <= 13 {
        "image/x-icon"
    } else {
        "image/png"
    }
}

/// Where the engine runs.
#[derive(Debug)]
pub enum EngineMode {
    InProcess,
    Remote { url: String },
}

/// Where a badge's bytes come from.
#[derive(Debug, Clone, Copy, PartialEq, Eq, Structural)]
pub enum ProjectIconSource {
    /// The engine runs in this process, so its project roots are on this disk.
    LocalFs,
    /// Everything else is read through the engine.
    WorkspaceRpc,
}

/// The disk is read directly only where the engine shares it and the project
/// lives on that engine's device.
pub open spec fn source_of(
    mode: Option<EngineMode>,
    local_device_id: Option<Seq<char>>,
    device_id: Seq<char>,
) -> ProjectIconSource {
    if mode is Some && mode->0 is InProcess && local_device_id == Some(device_id) {
        ProjectIconSource::LocalFs
    } else {
        ProjectIconSource::WorkspaceRpc
    }
}

/// A mode without the reference around it.
pub open spec fn mode_of(mode: Option<&EngineMode>) -> Option<EngineMode> {
    match mode {
        Some(mode) => Some(*mode),
        None => None,
    }
}

pub fn icon_source(
    engine_mode: Option<&EngineMode>,
    local_device_id: Option<&str>,
    device_id: &str,
) -> (r: ProjectIconSource)
    ensures
        r == source_of(mode_of(engine_mode), local_device_id.deep_view(), device_id@),
{
    match (engine_mode, local_device_id) {
        (Some(EngineMode::InProcess), Some(local)) => {
            if same_text(local, device_id) {
                ProjectIconSource::LocalFs
            } else {
                ProjectIconSource::WorkspaceRpc
            }
        },
        _ => ProjectIconSource::WorkspaceRpc,
    }
}

/// The place of the checkout root among a directory and its ancestors,
/// innermost first: the first that holds a repository, else the directory.
pub open spec fn root_place(repositories: Seq<bool>) -> int
    decreases repositories.len(),
{
    if !repositories.contains(true) {
        0
    } else if repositories[0] {
        0
    } else {
        1 + root_place(repositories.subrange(1, repositories.len() as int))
    }
}

/// The root's place is the first `true`.
proof fn root_place_is_first(repositories: Seq<bool>, at: int)
    requires
        0 <= at < repositories.len(),
        repositories[at],
        forall|i: int| 0 <= i < at ==> !repositories[i],
    ensures
        root_place(repositories) == at,
    decreases at,
{
    assert(repositories.contains(true));
    if at > 0 {
        let rest = repositories.subrange(1, repositories.len() as int);
        assert(rest[at - 1]);
        root_place_is_first(rest, at - 1);
    }
}

pub fn checkout_root(repositories: &Vec<bool>) -> (r: usize)
    ensures
        r == root_place(repositories@),
{
    let mut i: usize = 0;
    while i < repositories.len()
        invariant
            i <= repositories@.len(),
            forall|k: int| 0 <= k < i ==> !repositories@[k],
        decreases repositories@.len() - i,
    {
        if repositories[i] {
            proof {
                root_place_is_first(repositories@, i as int);
            }
            return i;
        }
        i += 1;
    }
    0
}

/// What came of the last step of a search.
#[derive(Debug)]
pub enum IconEvent {
    /// There is no such file.
    Missing,
    /// The file was not read.
    Unreadable,
    /// The file was read.
    Read,
    /// The engine has the file, in this checkout.
    Listed { checkout: String },
    /// The engine refused; later it may not.
    Refused { retryable: bool },
    /// The engine sent the image.
    Image { mime: String },
}

/// The next step of a search.
#[derive(Debug)]
pub enum IconStep {
    /// Read a file of the checkout root.
    ReadLocal { path: &'static str },
    /// Ask the engine for a file.
    ReadFile { path: &'static str },
    /// Ask the engine for the image in a file.
    ReadImage { path: &'static str, checkout: String },
    /// Decode what was read; the search is over whatever comes of it.
    Decode { mime: String },
    /// There is no icon.
    GiveUp,
}

/// What a step asks for.
pub enum Step {
    ReadLocal(Seq<char>),
    ReadFile(Seq<char>),
    ReadImage(Seq<char>, Seq<char>),
    Decode(Seq<char>),
    GiveUp,
}

impl View for IconStep {
    type V = Step;

    open spec fn view(&self) -> Step {
        match self {
            IconStep::ReadLocal { path } => Step::ReadLocal(path@),
            IconStep::ReadFile { path } => Step::ReadFile(path@),
            IconStep::ReadImage { path, checkout } => Step::ReadImage(path@, checkout@),
            IconStep::Decode { mime } => Step::Decode(mime@),
            IconStep::GiveUp => Step::GiveUp,
        }
    }
}

/// A search for a project's icon, one candidate after the other.
#[derive(Debug, Clone, Copy, PartialEq, Eq, Structural)]
pub struct IconSearch {
    pub source: ProjectIconSource,
    pub at: usize,
    pub done: bool,
}

impl IconSearch {
    /// The first question about a candidate; behind the last there is none.
    pub open spec fn question(source: ProjectIconSource, at: int) -> Step {
        if at >= ICON_PATH_COUNT {
            Step::GiveUp
        } else if source is LocalFs {
            Step::ReadLocal(icon_path_at(at))
        } else {
            Step::ReadFile(icon_path_at(at))
        }
    }

    /// What an answer leads to. A candidate that is not there, or that the
    /// engine cannot serve, gives way to the next. A fetched candidate is
    /// final, and so is one that exists but cannot be read; a refusal that may
    /// pass ends the search.
    pub open spec fn answer(self, event: IconEvent) -> Step {
        if self.done {
            Step::GiveUp
        } else {
            match event {
                IconEvent::Missing => Self::question(self.source, self.at + 1),
                IconEvent::Unreadable => Step::GiveUp,
                IconEvent::Read => Step::Decode(icon_mime_at(self.at as int)),
                IconEvent::Listed { checkout } => Step::ReadImage(
                    icon_path_at(self.at as int),
                    checkout@,
                ),
                IconEvent::Refused { retryable } => if retryable {
                    Step::GiveUp
                } else {
                    Self::question(self.source, self.at + 1)
                },
                IconEvent::Image { mime } => Step::Decode(mime@),
            }
        }
    }

    /// Whether an answer moves on to the next candidate.
    pub open spec fn moves_on(event: IconEvent) -> bool {
        event is Missing || (event is Refused && !event->retryable)
    }

    fn ask(source: ProjectIconSource, at: usize) -> (r: IconStep)
        ensures
            r@ == Self::question(source, at as int),
    {
        if at >= ICON_PATH_COUNT {
            return IconStep::GiveUp;
        }
        match source {
            ProjectIconSource::LocalFs => IconStep::ReadLocal { path: icon_path(at) },
            ProjectIconSource::WorkspaceRpc => IconStep::ReadFile { path: icon_path(at) },
        }
    }

    /// A search and its first step. Without an engine only the disk is
    /// searched.
    pub fn begin(source: ProjectIconSource, engine: bool) -> (r: (Self, IconStep))
        ensures
            r.0.source == source,
            r.0.at == 0,
            r.0.done == (source is WorkspaceRpc && !engine),
            r.1@ == (if source is WorkspaceRpc && !engine {
                Step::GiveUp
            } else {
                Self::question(source, 0)
            }),
    {
        let stuck: bool = match source {
            ProjectIconSource::LocalFs => false,
            ProjectIconSource::WorkspaceRpc => !engine,
        };
        let search: IconSearch = IconSearch { source, at: 0, done: stuck };
        if stuck {
            (search, IconStep::GiveUp)
        } else {
            (search, Self::ask(source, 0))
        }
    }

    /// Takes an answer and gives the next step.
    pub fn step(&mut self, event: IconEvent) -> (r: IconStep)
        requires
            old(self).at < ICON_PATH_COUNT,
        ensures
            r@ == old(self).answer(event),
            final(self).source == old(self).source,
            final(self).done == (r@ is GiveUp || r@ is Decode),
            final(self).at == (if !final(self).done && Self::moves_on(event) {
                old(self).at + 1
            } else {
                old(self).at as int
            }),
            final(self).at < ICON_PATH_COUNT,
    {
        if self.done {
            return IconStep::GiveUp;
        }
        let next: IconStep = match event {
            IconEvent::Missing => Self::ask(self.source, self.at + 1),
            IconEvent::Unreadable => IconStep::GiveUp,
            IconEvent::Read => IconStep::Decode { mime: icon_mime(self.at).to_owned() },
            IconEvent::Listed { checkout } => {
                return IconStep::ReadImage { path: icon_path(self.at), checkout };
            },
            IconEvent::Refused { retryable } => {
                if retryable {
                    IconStep::GiveUp
                } else {
                    Self::ask(self.source, self.at + 1)
                }
            },
            IconEvent::Image { mime } => IconStep::Decode { mime },
        };
        match &next {
            IconStep::GiveUp => {
                self.done = true;
            },
            IconStep::Decode { .. } => {
                self.done = true;
            },
            _ => {
                self.at = self.at + 1;
            },
        }
        next
    }
}

/// The hash of some bytes: multiply and exclusive-or, byte by byte.
pub open spec fn seed_hash(bytes: Seq<u8>) -> u32
    decreases bytes.len(),
{
    if bytes.len() == 0 {
        2166136261
    } else {
        (((seed_hash(bytes.drop_last()) ^ (bytes.last() as u32)) as int * 16777619) % 0x1_0000_0000)
            as u32
    }
}

fn hash_of(bytes: &[u8]) -> (r: u32)
    ensures
        r == seed_hash(bytes@),
{
    let mut hash: u32 = 2166136261;
    let mut i: usize = 0;
    proof {
        assert(bytes@.take(0) =~= Seq::<u8>::empty());
    }
    while i < bytes.len()
        invariant
            i <= bytes@.len(),
            hash == seed_hash(bytes@.take(i as int)),
        decreases bytes@.len() - i,
    {
        let mixed: u32 = hash ^ (bytes[i] as u32);
        hash = ((mixed as u64 * 16777619u64) % 0x1_0000_0000u64) as u32;
        proof {
            let front = bytes@.take(i + 1);
            assert(front.drop_last() =~= bytes@.take(i as int));
            assert(front.last() == bytes@[i as int]);
        }
        i += 1;
    }
    proof {
        assert(bytes@.take(bytes@.len() as int) =~= bytes@);
    }
    hash
}

/// A badge tone, on a dark and on a light background.
pub open spec fn tone_pair(slot: int) -> (u32, u32) {
    if slot == 0 {
        (0x94a3b8, 0x475569)
    } else if slot == 1 {
        (0x93c5fd, 0x2563eb)
    } else if slot == 2 {
        (0xc4b5fd, 0x7c3aed)
    } else if slot == 3 {
        (0xfda4af, 0xbe123c)
    } else if slot == 4 {
        (0xfcd34d, 0xa16207)
    } else if slot == 5 {
        (0x6ee7b7, 0x047857)
    } else if slot == 6 {
        (0x5eead4, 0x0f766e)
    } else {
        (0xfdba74, 0xc2410c)
    }
}

/// The tone of a project: a fixed slot of its seed, in the appearance's
/// variant.
pub open spec fn tone_of(seed: Seq<char>, theme: Theme) -> Tint {
    let pair = tone_pair((seed_hash(encode_utf8(seed)) % 8) as int);
    variant(theme, pair.0, pair.1)
}

pub fn monogram_tone(seed: &str, theme: &Theme) -> (r: Tint)
    ensures
        r == tone_of(seed@, *theme),
{
    let hash: u32 = hash_of(seed.as_bytes());
    let slot: u32 = hash % 8;
    match slot {
        0 => pick(theme, 0x94a3b8, 0x475569),
        1 => pick(theme, 0x93c5fd, 0x2563eb),
        2 => pick(theme, 0xc4b5fd, 0x7c3aed),
        3 => pick(theme, 0xfda4af, 0xbe123c),
        4 => pick(theme, 0xfcd34d, 0xa16207),
        5 => pick(theme, 0x6ee7b7, 0x047857),
        6 => pick(theme, 0x5eead4, 0x0f766e),
        _ => pick(theme, 0xfdba74, 0xc2410c),
    }
}

/// The upper-case form of one character.
pub uninterp spec fn upper_case(c: char) -> Seq<char>;

/// `char::to_uppercase` of std, collected into a text: the text is a function
/// of the character.
#[verifier::external_body]
fn to_upper_case(c: char) -> (r: String)
    ensures
        r@ == upper_case(c),
{
    c.to_uppercase().to_string()
}

/// The character a monogram is made from: the first of the trimmed name, or a
/// question mark.
pub open spec fn initial_of(name: Seq<char>) -> char {
    if trimmed(name).len() > 0 {
        trimmed(name)[0]
    } else {
        '?'
    }
}

pub fn initial(name: &str) -> (r: char)
    ensures
        r == initial_of(name@),
{
    let chars: Vec<char> = chars_of(name);
    proof {
        assert(chars@.subrange(0, chars@.len() as int) =~= name@);
    }
    let bounds: (usize, usize) = trim_range(chars.as_slice(), 0, chars.len());
    if bounds.0 < bounds.1 {
        proof {
            assert(trimmed(name@)[0] == chars@.subrange(bounds.0 as int, bounds.1 as int)[0]);
        }
        chars[bounds.0]
    } else {
        '?'
    }
}

/// A drawn monogram.
#[derive(Debug)]
pub struct Monogram {
    pub letter: String,
    pub tone: Tint,
    /// The opacity of the background, in percent.
    pub wash: u8,
}

pub fn monogram(name: &str, seed: &str, selected: bool, theme: &Theme) -> (r: Monogram)
    ensures
        r.letter@ == upper_case(initial_of(name@)),
        r.tone == tone_of(seed@, *theme),
        r.wash == (if selected {
            26u8
        } else {
            16
        }),
{
    Monogram {
        letter: to_upper_case(initial(name)),
        tone: monogram_tone(seed, theme),
        wash: if selected {
            26
        } else {
            16
        },
    }
}

/// Whose workspace is shown.
#[derive(Debug, Clone, Copy, PartialEq, Eq, Structural)]
pub enum WorkspaceScope {
    Local,
    Synced,
    Development,
}

/// Who is signed in.
#[derive(Debug)]
pub enum AuthState {
    SignedOut,
    SignedIn { user_id: String, org_id: Option<String> },
}

/// What precedes the first `@` of a text, and what follows it.
pub open spec fn split_at_sign(s: Seq<char>) -> Option<(Seq<char>, Seq<char>)>
    decreases s.len(),
{
    if s.len() == 0 {
        None
    } else if s[0] == '@' {
        Some((Seq::empty(), s.subrange(1, s.len() as int)))
    } else {
        match split_at_sign(s.subrange(1, s.len() as int)) {
            Some(parts) => Some((seq![s[0]] + parts.0, parts.1)),
            None => None,
        }
    }
}

/// The parts of a text around its first `@`.
proof fn split_at_first(s: Seq<char>, at: int)
    requires
        0 <= at <= s.len(),
        forall|i: int| 0 <= i < at ==> s[i] != '@',
        at < s.len() ==> s[at] == '@',
    ensures
        split_at_sign(s) == (if at < s.len() {
            Some((s.subrange(0, at), s.subrange(at + 1, s.len() as int)))
        } else {
            None
        }),
    decreases at,
{
    if at == 0 {
        if s.len() > 0 {
            assert(s.subrange(0, 0) =~= Seq::<char>::empty());
        }
    } else {
        let rest = s.subrange(1, s.len() as int);
        split_at_first(rest, at - 1);
        if at < s.len() {
            assert(seq![s[0]] + rest.subrange(0, at - 1) =~= s.subrange(0, at));
            assert(rest.subrange(at, rest.len() as int) =~= s.subrange(at + 1, s.len() as int));
        }
    }
}

fn split_user(s: &str) -> (r: Option<(String, String)>)
    ensures
        (match r {
            Some(parts) => split_at_sign(s@) == Some((parts.0@, parts.1@)),
            None => split_at_sign(s@) is None,
        }),
{
    let chars: Vec<char> = chars_of(s);
    let mut at: usize = 0;
    while at < chars.len() && chars[at] != '@'
        invariant
            at <= chars@.len(),
            forall|i: int| 0 <= i < at ==> chars@[i] != '@',
        decreases chars@.len() - at,
    {
        at += 1;
    }
    proof {
        split_at_first(s@, at as int);
    }
    if at < chars.len() {
        Some(
            (
                string_of(chars.as_slice(), 0, at),
                string_of(chars.as_slice(), at + 1, chars.len()),
            ),
        )
    } else {
        None
    }
}

/// The key of a development profile: the user before the first `@`, in the
/// organization behind it, else the configured one, else the default.
pub open spec fn development_key(
    user: Seq<char>,
    configured_org: Option<Seq<char>>,
    default_org: Seq<char>,
) -> Option<Seq<char>> {
    let parts = split_at_sign(user);
    let name = match parts {
        Some(parts) => parts.0,
        None => user,
    };
    let org = if parts is Some && (parts->0).1.len() > 0 {
        (parts->0).1
    } else if configured_org is Some && configured_org->0.len() > 0 {
        configured_org->0
    } else {
        default_org
    };
    if name.len() == 0 {
        None
    } else {
        Some("development:"@ + org + ":"@ + name)
    }
}

/// The key of the profile whose workspace is shown, where one is known.
pub open spec fn profile_of(
    scope: Option<WorkspaceScope>,
    auth: Option<AuthState>,
    configured_org: Option<Seq<char>>,
    default_org: Seq<char>,
) -> Option<Seq<char>> {
    match scope {
        None => None,
        Some(WorkspaceScope::Local) => Some("local"@),
        Some(WorkspaceScope::Synced) => match auth {
            Some(AuthState::SignedIn { user_id, org_id: Some(org_id) }) => Some(
                "synced:"@ + org_id@ + ":"@ + user_id@,
            ),
            _ => None,
        },
        Some(WorkspaceScope::Development) => match auth {
            Some(AuthState::SignedIn { user_id, .. }) => development_key(
                user_id@,
                configured_org,
                default_org,
            ),
            _ => None,
        },
    }
}

/// Stable key for what belongs to one workspace profile. `default_org` is the
/// engine's own organization.
pub fn profile_key(
    scope: Option<WorkspaceScope>,
    auth: &Option<AuthState>,
    development_org_id: &Option<String>,
    default_org: &str,
) -> (r: Option<String>)
    ensures
        r.deep_view() == profile_of(
            scope,
            *auth,
            development_org_id.deep_view(),
            default_org@,
        ),
{
    let scope: WorkspaceScope = match scope {
        Some(scope) => scope,
        None => return None,
    };
    match scope {
        WorkspaceScope::Local => Some("local".to_owned()),
        WorkspaceScope::Synced => match auth {
            Some(AuthState::SignedIn { user_id, org_id }) => match org_id {
                Some(org_id) => {
                    let head: String = join3("synced:", org_id.as_str(), ":");
                    Some(join2(head.as_str(), user_id.as_str()))
                },
                None => None,
            },
            _ => None,
        },
        WorkspaceScope::Development => match auth {
            Some(AuthState::SignedIn { user_id, org_id: _ }) => {
                let mut name: String = user_id.clone();
                let mut org: String = default_org.to_owned();
                match development_org_id {
                    Some(configured) => {
                        if !configured.as_str().is_empty() {
                            org = configured.clone();
                        }
                    },
                    None => {},
                }
                match split_user(user_id.as_str()) {
                    Some(parts) => {
                        name = parts.0;
                        if !parts.1.as_str().is_empty() {
                            org = parts.1;
                        }
                    },
                    None => {},
                }
                if name.as_str().is_empty() {
                    return None;
                }
                let head: String = join3("development:", org.as_str(), ":");
                Some(join2(head.as_str(), name.as_str()))
            },
            _ => None,
        },
    }
}

/// How files of a project are asked for.
#[derive(Debug)]
pub struct FilesRequestContext {
    pub space_id: String,
    /// The device a request is meant for; the engine's own where absent.
    pub target_device_id: Option<String>,
    pub cwd: String,
    pub checkout_id: Option<String>,
}

/// A project on some device.
#[derive(Debug)]
pub struct Space {
    pub id: String,
    pub display_name: String,
    pub path: String,
    pub device_id: String,
    pub checkout_id: Option<String>,
}

/// A session's badge inputs.
#[derive(Debug)]
pub struct ProjectIconRequest {
    pub chat_id: String,
    pub name: String,
    pub seed: String,
    pub device: String,
    pub context: Option<FilesRequestContext>,
    pub source: ProjectIconSource,
}

/// What a request context says.
#[verifier::ext_equal]
pub struct FilesContext {
    pub space_id: Seq<char>,
    pub target_device_id: Option<Seq<char>>,
    pub cwd: Seq<char>,
    pub checkout_id: Option<Seq<char>>,
}

impl DeepView for FilesRequestContext {
    type V = FilesContext;

    open spec fn deep_view(&self) -> FilesContext {
        FilesContext {
            space_id: self.space_id@,
            target_device_id: self.target_device_id.deep_view(),
            cwd: self.cwd@,
            checkout_id: self.checkout_id.deep_view(),
        }
    }
}

impl ProjectIconRequest {
    /// A request that only ever draws a monogram.
    pub fn monogram_only(chat_id: &str, name: &str) -> (r: Self)
        ensures
            r.chat_id@ == chat_id@,
            r.name@ == name@,
            r.seed@ == name@,
            r.device@ == "Unknown device"@,
            r.context is None,
            r.source is WorkspaceRpc,
    {
        ProjectIconRequest {
            chat_id: chat_id.to_owned(),
            name: name.to_owned(),
            seed: name.to_owned(),
            device: "Unknown device".to_owned(),
            context: None,
            source: ProjectIconSource::WorkspaceRpc,
        }
    }

    /// A session's badge inputs: its project's, or those of home.
    pub fn resolve(
        chat_id: &str,
        device_name: Option<&str>,
        space: Option<&Space>,
        engine_mode: Option<&EngineMode>,
        local_device_id: &Option<String>,
    ) -> (r: Self)
        ensures
            r.chat_id@ == chat_id@,
            r.device@ == (match device_name {
                Some(name) => name@,
                None => "Unknown device"@,
            }),
            (match space {
                None => {
                    &&& r.name@ == "Home"@
                    &&& r.seed@ == "home"@
                    &&& r.context is None
                    &&& r.source is WorkspaceRpc
                },
                Some(space) => {
                    &&& r.name@ == space.display_name@
                    &&& r.seed@ == space.path@
                    &&& r.source == source_of(
                        mode_of(engine_mode),
                        local_device_id.deep_view(),
                        space.device_id@,
                    )
                    &&& r.context.deep_view() == Some(
                        FilesContext {
                            space_id: space.id@,
                            target_device_id: if local_device_id.deep_view() == Some(
                                space.device_id@,
                            ) {
                                None
                            } else {
                                Some(space.device_id@)
                            },
                            cwd: space.path@,
                            checkout_id: space.checkout_id.deep_view(),
                        },
                    )
                },
            }),
    {
        let device: String = match device_name {
            Some(name) => name.to_owned(),
            None => "Unknown device".to_owned(),
        };
        match space {
            None => ProjectIconRequest {
                chat_id: chat_id.to_owned(),
                name: "Home".to_owned(),
                seed: "home".to_owned(),
                device,
                context: None,
                source: ProjectIconSource::WorkspaceRpc,
            },
            Some(space) => {
                let local: Option<&str> = match local_device_id {
                    Some(id) => Some(id.as_str()),
                    None => None,
                };
                let target: Option<String> = if is_text(
                    local_device_id,
                    space.device_id.as_str(),
                ) {
                    None
                } else {
                    Some(space.device_id.clone())
                };
                ProjectIconRequest {
                    chat_id: chat_id.to_owned(),
                    name: space.display_name.clone(),
                    seed: space.path.clone(),
                    device,
                    source: icon_source(engine_mode, local, space.device_id.as_str()),
                    context: Some(
                        FilesRequestContext {
                            space_id: space.id.clone(),
                            target_device_id: target,
                            cwd: space.path.clone(),
                            checkout_id: copy_option(&space.checkout_id),
                        },
                    ),
                }
            },
        }
    }
}

/// How an optional text is written out for a developer.
pub uninterp spec fn debug_text(value: Option<Seq<char>>) -> Seq<char>;

/// `format!` of std with the debug form of an optional text: the text is a
/// function of the value.
#[verifier::external_body]
fn debug_option(value: &Option<String>) -> (r: String)
    ensures
        r@ == debug_text(value.deep_view()),
{
    format!("{:?}", value)
}

/// The name of a source.
pub open spec fn source_name(source: ProjectIconSource) -> Seq<char> {
    if source is LocalFs {
        "LocalFs"@
    } else {
        "WorkspaceRpc"@
    }
}

/// The identity of a badge, from the written-out parts.
pub open spec fn key_text(
    profile: Seq<char>,
    source: ProjectIconSource,
    engine_device: Seq<char>,
    target: Seq<char>,
    cwd: Seq<char>,
    checkout: Seq<char>,
    name: Seq<char>,
) -> Seq<char> {
    profile + ":"@ + source_name(source) + ":"@ + engine_device + ":"@ + target + ":"@ + cwd + ":"@
        + checkout + ":"@ + name
}

/// Puts the written-out parts of a badge's identity together.
pub fn join_key(
    profile: &str,
    source: ProjectIconSource,
    engine_device: &str,
    target: &str,
    cwd: &str,
    checkout: &str,
    name: &str,
) -> (r: String)
    ensures
        r@ == key_text(profile@, source, engine_device@, target@, cwd@, checkout@, name@),
{
    let mut out: String = profile.to_owned();
    out.append(":");
    match source {
        ProjectIconSource::LocalFs => {
            out.append("LocalFs");
        },
        ProjectIconSource::WorkspaceRpc => {
            out.append("WorkspaceRpc");
        },
    }
    out.append(":");
    out.append(engine_device);
    out.append(":");
    out.append(target);
    out.append(":");
    out.append(cwd);
    out.append(":");
    out.append(checkout);
    out.append(":");
    out.append(name);
    out
}

/// The identity of a badge. The engine's device is part of it, so that two
/// remote profiles of one account do not share badges.
pub fn icon_key(
    profile: &Option<String>,
    source: ProjectIconSource,
    local_device_id: &Option<String>,
    context: &FilesRequestContext,
    name: &str,
) -> (r: String)
    ensures
        r@ == key_text(
            debug_text(profile.deep_view()),
            source,
            debug_text(local_device_id.deep_view()),
            debug_text(context.target_device_id.deep_view()),
            context.cwd@,
            debug_text(context.checkout_id.deep_view()),
            name@,
        ),
{
    let profile: String = debug_option(profile);
    let device: String = debug_option(local_device_id);
    let target: String = debug_option(&context.target_device_id);
    let checkout: String = debug_option(&context.checkout_id);
    join_key(
        profile.as_str(),
        source,
        device.as_str(),
        target.as_str(),
        context.cwd.as_str(),
        checkout.as_str(),
        name,
    )
}

/// A cached badge is refreshed this long after it loaded, in milliseconds.
pub const ICON_TTL_MS: u64 = 300_000;

/// How long a sweep of the cache holds, in milliseconds.
pub const ICON_PRUNE_INTERVAL_MS: u64 = 60_000;

/// A kept badge.
#[derive(Debug)]
pub struct IconEntry {
    pub key: String,
    pub refreshed_ms: u64,
    /// Artwork was found.
    pub artwork: bool,
}

/// What a kept badge is.
#[verifier::ext_equal]
pub struct Badge {
    pub key: Seq<char>,
    pub refreshed_ms: u64,
    pub artwork: bool,
}

impl DeepView for IconEntry {
    type V = Badge;

    open spec fn deep_view(&self) -> Badge {
        Badge { key: self.key@, refreshed_ms: self.refreshed_ms, artwork: self.artwork }
    }
}

/// The time since an instant; never negative.
pub open spec fn since(at: u64, now: u64) -> int {
    if now >= at {
        now - at
    } else {
        0
    }
}

fn elapsed_since(at: u64, now: u64) -> (r: u64)
    ensures
        r == since(at, now),
{
    if now >= at {
        now - at
    } else {
        0
    }
}

/// The badges that are still fresh.
pub open spec fn fresh(badges: Seq<Badge>, now: u64) -> Seq<Badge> {
    badges.filter(|badge: Badge| since(badge.refreshed_ms, now) < ICON_TTL_MS)
}

/// The badges but a stale one under a key.
pub open spec fn refreshed(badges: Seq<Badge>, key: Seq<char>, now: u64) -> Seq<Badge> {
    badges.filter(
        |badge: Badge| badge.key != key || since(badge.refreshed_ms, now) < ICON_TTL_MS,
    )
}

/// The badge under a key.
pub open spec fn badge_at(badges: Seq<Badge>, key: Seq<char>) -> Option<Badge>
    decreases badges.len(),
{
    if badges.len() == 0 {
        None
    } else if badges[0].key == key {
        Some(badges[0])
    } else {
        badge_at(badges.subrange(1, badges.len() as int), key)
    }
}

/// The kept badges.
#[derive(Debug)]
pub struct IconCache {
    pub entries: Vec<IconEntry>,
    pub pruned_ms: u64,
}

/// What the cache holds.
#[verifier::ext_equal]
pub struct Badges {
    pub badges: Seq<Badge>,
    pub pruned_ms: u64,
}

impl View for IconCache {
    type V = Badges;

    open spec fn view(&self) -> Badges {
        Badges { badges: self.entries.deep_view(), pruned_ms: self.pruned_ms }
    }
}

impl Badges {
    /// The cache as a lookup finds it: swept where a sweep is due, and without
    /// the stale badge under the key.
    pub open spec fn current(self, key: Seq<char>, now: u64) -> Badges {
        let due = since(self.pruned_ms, now) >= ICON_PRUNE_INTERVAL_MS;
        let swept = if due {
            fresh(self.badges, now)
        } else {
            self.badges
        };
        Badges {
            badges: refreshed(swept, key, now),
            pruned_ms: if due {
                now
            } else {
                self.pruned_ms
            },
        }
    }

    /// The cache behind a lookup: a badge that was not there is begun.
    pub open spec fn looked_up(self, key: Seq<char>, now: u64) -> Badges {
        let current = self.current(key, now);
        if badge_at(current.badges, key) is Some {
            current
        } else {
            Badges {
                badges: current.badges.push(Badge { key, refreshed_ms: now, artwork: false }),
                ..current
            }
        }
    }
}

impl Badges {
    /// The cache once a badge's search ended.
    pub open spec fn settled(self, key: Seq<char>, found: bool) -> Badges {
        Badges {
            badges: self.badges.map_values(
                |badge: Badge|
                    if badge.key == key {
                        Badge { artwork: found, ..badge }
                    } else {
                        badge
                    },
            ),
            ..self
        }
    }
}

/// What a lookup found.
#[derive(Debug, Clone, Copy, PartialEq, Eq, Structural)]
pub struct Lookup {
    /// The badge is new and has to be loaded.
    pub load: bool,
    /// Artwork can be shown; else a monogram is.
    pub artwork: bool,
}

impl IconCache {
    /// Keeps the fresh entries, and the stale ones where `only` names another
    /// key.
    fn sweep(&mut self, only: Option<&str>, now: u64)
        ensures
            final(self)@ == (Badges {
                badges: match only {
                    Some(key) => refreshed(old(self)@.badges, key@, now),
                    None => fresh(old(self)@.badges, now),
                },
                ..old(self)@
            }),
    {
        let mut kept: Vec<IconEntry> = Vec::new();
        let mut rest: Vec<IconEntry> = Vec::new();
        std::mem::swap(&mut rest, &mut self.entries);
        let ghost all = rest.deep_view();
        let ghost keep = match only {
            Some(key) => |badge: Badge|
                badge.key != key@ || since(badge.refreshed_ms, now) < ICON_TTL_MS,
            None => |badge: Badge| since(badge.refreshed_ms, now) < ICON_TTL_MS,
        };
        proof {
            assert(all.take(0) =~= Seq::<Badge>::empty());
            reveal(Seq::filter);
        }
        for entry in it: rest
            invariant
                it.seq() == rest@,
                all == rest.deep_view(),
                keep == (match only {
                    Some(key) => |badge: Badge|
                        badge.key != key@ || since(badge.refreshed_ms, now) < ICON_TTL_MS,
                    None => |badge: Badge| since(badge.refreshed_ms, now) < ICON_TTL_MS,
                }),
                kept.deep_view() == all.take(it.index() as int).filter(keep),
        {
            let stale: bool = elapsed_since(entry.refreshed_ms, now) >= ICON_TTL_MS;
            let named: bool = match only {
                Some(key) => same_text(entry.key.as_str(), key),
                None => true,
            };
            let ghost sofar = kept.deep_view();
            let ghost badge = entry.deep_view();
            proof {
                reveal(Seq::filter);
                let front = all.take(it.index() + 1);
                assert(badge == all[it.index() as int]);
                assert(front.drop_last() =~= all.take(it.index() as int));
                assert(front.last() == badge);
                assert(keep(badge) == !(stale && named));
            }
            if !(stale && named) {
                kept.push(entry);
                proof {
                    assert(kept.deep_view() =~= sofar.push(badge));
                }
            }
        }
        self.entries = kept;
        proof {
            assert(all.take(all.len() as int) =~= all);
            match only {
                Some(key) => {
                    assert(keep =~= (|badge: Badge|
                        badge.key != key@ || since(badge.refreshed_ms, now) < ICON_TTL_MS));
                },
                None => {
                    assert(keep =~= (|badge: Badge|
                        since(badge.refreshed_ms, now) < ICON_TTL_MS));
                },
            }
        }
    }

    /// Finds the entry under a key.
    fn find(&self, key: &str) -> (r: Option<usize>)
        ensures
            (match r {
                Some(at) => {
                    &&& at < self.entries@.len()
                    &&& badge_at(self@.badges, key@) == Some(self.entries@[at as int].deep_view())
                },
                None => badge_at(self@.badges, key@) is None,
            }),
    {
        let mut i: usize = 0;
        let ghost all = self@.badges;
        proof {
            assert(all.subrange(0, all.len() as int) =~= all);
        }
        while i < self.entries.len()
            invariant
                i <= self.entries@.len(),
                all == self.entries.deep_view(),
                badge_at(all, key@) == badge_at(all.subrange(i as int, all.len() as int), key@),
            decreases self.entries@.len() - i,
        {
            proof {
                let rest = all.subrange(i as int, all.len() as int);
                assert(rest[0] == self.entries@[i as int].deep_view());
                assert(rest.subrange(1, rest.len() as int) =~= all.subrange(
                    i + 1,
                    all.len() as int,
                ));
            }
            if same_text(self.entries[i].key.as_str(), key) {
                return Some(i);
            }
            i += 1;
        }
        None
    }

    /// Looks a badge up, beginning it where it is not kept or has become
    /// stale. A sweep drops the badges nothing refreshes, at most once per
    /// interval.
    pub fn lookup(&mut self, key: &str, now: u64) -> (r: Lookup)
        ensures
            final(self)@ == old(self)@.looked_up(key@, now),
            r.load == (badge_at(old(self)@.current(key@, now).badges, key@) is None),
            r.artwork == (match badge_at(old(self)@.current(key@, now).badges, key@) {
                Some(badge) => badge.artwork,
                None => false,
            }),
    {
        if elapsed_since(self.pruned_ms, now) >= ICON_PRUNE_INTERVAL_MS {
            self.pruned_ms = now;
            self.sweep(None, now);
        }
        self.sweep(Some(key), now);
        match self.find(key) {
            Some(at) => Lookup { load: false, artwork: self.entries[at].artwork },
            None => {
                let ghost before = self@.badges;
                self.entries.push(
                    IconEntry { key: key.to_owned(), refreshed_ms: now, artwork: false },
                );
                proof {
                    assert(self@.badges =~= before.push(
                        Badge { key: key@, refreshed_ms: now, artwork: false },
                    ));
                }
                Lookup { load: true, artwork: false }
            },
        }
    }
}

impl IconCache {
    /// Takes over how a badge's search ended. One that is no longer kept
    /// changes nothing.
    pub fn loaded(&mut self, key: &str, found: bool)
        ensures
            final(self)@ == old(self)@.settled(key@, found),
    {
        let ghost before = self@;
        let mut rest: Vec<IconEntry> = Vec::new();
        std::mem::swap(&mut rest, &mut self.entries);
        let mut out: Vec<IconEntry> = Vec::new();
        let ghost all = rest.deep_view();
        for entry in it: rest
            invariant
                it.seq() == rest@,
                all == rest.deep_view(),
                all == before.badges,
                out@.len() == it.index(),
                forall|i: int|
                    0 <= i < it.index() ==> (#[trigger] out@[i]).deep_view() == before.settled(
                        key@,
                        found,
                    ).badges[i],
        {
            proof {
                assert(all[it.index() as int] == entry.deep_view());
            }
            let artwork: bool = if same_text(entry.key.as_str(), key) {
                found
            } else {
                entry.artwork
            };
            out.push(IconEntry { key: entry.key, refreshed_ms: entry.refreshed_ms, artwork });
        }
        self.entries = out;
        proof {
            assert(self@.badges =~= before.settled(key@, found).badges);
        }
    }
}

/// A badge whose search found artwork shows it from then on, while it is kept.
pub proof fn found_artwork_shows(badges: Seq<Badge>, pruned_ms: u64, key: Seq<char>, found: bool)
    requires
        badge_at(badges, key) is Some,
    ensures
        ({
            let after = (Badges { badges, pruned_ms }).settled(key, found).badges;
            &&& badge_at(after, key) is Some
            &&& badge_at(after, key)->0.artwork == found
            &&& badge_at(after, key)->0.refreshed_ms == badge_at(badges, key)->0.refreshed_ms
        }),
    decreases badges.len(),
{
    let after = (Badges { badges, pruned_ms }).settled(key, found).badges;
    if badges[0].key != key {
        let rest = badges.subrange(1, badges.len() as int);
        found_artwork_shows(rest, pruned_ms, key, found);
        assert(after.subrange(1, after.len() as int) =~= (Badges {
            badges: rest,
            pruned_ms,
        }).settled(key, found).badges);
    }
}

/// How a badge is drawn.
#[derive(Debug, Clone, Copy, PartialEq, Eq, Structural)]
pub enum IconView {
    Monogram,
    /// A monogram, while the badge is loaded.
    Loading,
    Artwork,
}

/// How a session's badge is drawn. A request without a project, or one that
/// only a missing engine could serve, is never cached.
pub fn render_project_icon(
    cache: &mut IconCache,
    request: &ProjectIconRequest,
    key: &str,
    engine: bool,
    now: u64,
) -> (r: IconView)
    ensures
        ({
            let cached = request.context is Some && !(request.source is WorkspaceRpc && !engine);
            let found = badge_at(old(cache)@.current(key@, now).badges, key@);
            &&& final(cache)@ == (if cached {
                old(cache)@.looked_up(key@, now)
            } else {
                old(cache)@
            })
            &&& r == (if !cached {
                IconView::Monogram
            } else {
                match found {
                    None => IconView::Loading,
                    Some(badge) => if badge.artwork {
                        IconView::Artwork
                    } else {
                        IconView::Monogram
                    },
                }
            })
        }),
{
    if request.context.is_none() {
        return IconView::Monogram;
    }
    match request.source {
        ProjectIconSource::WorkspaceRpc => {
            if !engine {
                return IconView::Monogram;
            }
        },
        ProjectIconSource::LocalFs => {},
    }
    let found: Lookup = cache.lookup(key, now);
    if found.load {
        IconView::Loading
    } else if found.artwork {
        IconView::Artwork
    } else {
        IconView::Monogram
    }
}

/// An engine elsewhere never has this machine's disk read for it, whatever
/// its device is called.
pub proof fn a_remote_engine_never_reads_this_disk(
    url: String,
    local_device_id: Option<Seq<char>>,
    device_id: Seq<char>,
)
    ensures
        source_of(Some(EngineMode::Remote { url }), local_device_id, device_id) is WorkspaceRpc,
        source_of(None, local_device_id, device_id) is WorkspaceRpc,
{
}

/// A fetched candidate is final: lower-priority artwork never stands in for
/// one that turns out corrupt.
pub proof fn a_fetched_icon_is_final(search: IconSearch, event: IconEvent)
    requires
        event is Read || event is Image,
        !search.done,
    ensures
        search.answer(event) is Decode,
        forall|later: IconEvent|
            (IconSearch { done: true, ..search }).answer(later) is GiveUp,
{
}

/// A candidate is only passed over for the next one in order.
pub proof fn candidates_are_tried_in_order(search: IconSearch, event: IconEvent)
    requires
        search.at + 1 < ICON_PATH_COUNT,
        !search.done,
        IconSearch::moves_on(event),
    ensures
        search.answer(event) == IconSearch::question(search.source, search.at + 1),
        search.source is LocalFs ==> search.answer(event) == Step::ReadLocal(
            icon_path_at(search.at + 1),
        ),
        search.source is WorkspaceRpc ==> search.answer(event) == Step::ReadFile(
            icon_path_at(search.at + 1),
        ),
{
}

} // verus!
