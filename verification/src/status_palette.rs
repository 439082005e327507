//! Session status language shared by the sidebar, pane headers, and palette.
//!
//! Color encodes state and identity, never decoration. Each live state has one
//! hue; queued and settled sessions stay neutral. The hues are explicit, so
//! every theme reads the same state the same way; only the light or dark
//! variant follows the appearance.
use vstd::prelude::*;
use crate::theme::{pick, solid, solid_tint, variant, Theme, Tint};

verus! {

/// The engine's indicator for one chat.
#[derive(Debug, Clone, Copy, PartialEq, Eq, Structural)]
pub enum ChatIndicator {
    Working,
    AwaitingInput,
    Errored,
    Completed,
    Idle,
}

/// The display state of one session, after send-truth overrides.
#[derive(Debug, Clone, Copy, PartialEq, Eq, Structural)]
pub enum SessionState {
    /// A send that was never adopted past the grace window.
    Failed,
    AwaitingInput,
    Working,
    /// A send waiting on a degraded delivery path.
    Queued,
    /// Finished while nobody was looking.
    Completed,
    Idle,
}

/// The display state: undelivered beats everything, then queued, then the
/// engine's indicator.
pub open spec fn resolved(
    indicator: ChatIndicator,
    queued: bool,
    undelivered: bool,
) -> SessionState {
    if undelivered {
        SessionState::Failed
    } else if queued {
        SessionState::Queued
    } else {
        match indicator {
            ChatIndicator::Errored => SessionState::Failed,
            ChatIndicator::AwaitingInput => SessionState::AwaitingInput,
            ChatIndicator::Working => SessionState::Working,
            ChatIndicator::Completed => SessionState::Completed,
            ChatIndicator::Idle => SessionState::Idle,
        }
    }
}

/// The hue of a state.
pub open spec fn state_tint(state: SessionState, theme: Theme) -> Option<Tint> {
    match state {
        SessionState::Failed => Some(solid_tint(theme.danger)),
        SessionState::AwaitingInput => Some(variant(theme, 0xa5b4fc, 0x4f46e5)),
        SessionState::Working => Some(variant(theme, 0x7dd3fc, 0x0284c7)),
        SessionState::Completed => Some(variant(theme, 0x6ee7b7, 0x059669)),
        SessionState::Queued | SessionState::Idle => None,
    }
}

/// The label of a state.
pub open spec fn state_label(state: SessionState) -> Option<Seq<char>> {
    match state {
        SessionState::Failed => Some("Failed"@),
        SessionState::AwaitingInput => Some("Awaiting input"@),
        SessionState::Working => Some("Working"@),
        SessionState::Queued => Some("Queued"@),
        SessionState::Completed => Some("Completed"@),
        SessionState::Idle => None,
    }
}

impl SessionState {
    /// Resolves the display state.
    pub fn resolve(indicator: ChatIndicator, queued: bool, undelivered: bool) -> (r: Self)
        ensures
            r == resolved(indicator, queued, undelivered),
    {
        if undelivered {
            return Self::Failed;
        }
        if queued {
            return Self::Queued;
        }
        match indicator {
            ChatIndicator::Errored => Self::Failed,
            ChatIndicator::AwaitingInput => Self::AwaitingInput,
            ChatIndicator::Working => Self::Working,
            ChatIndicator::Completed => Self::Completed,
            ChatIndicator::Idle => Self::Idle,
        }
    }

    /// True when the session is blocked on the user.
    pub fn needs_you(self) -> (r: bool)
        ensures
            r == (self is Failed || self is AwaitingInput),
    {
        matches!(self, Self::Failed | Self::AwaitingInput)
    }

    /// True while the agent is (or is about to be) doing work.
    pub fn running(self) -> (r: bool)
        ensures
            r == (self is Working || self is Queued),
    {
        matches!(self, Self::Working | Self::Queued)
    }

    /// Short sentence-case label, or `None` for settled sessions.
    pub fn label(self) -> (r: Option<&'static str>)
        ensures
            r.deep_view() == state_label(self),
    {
        match self {
            Self::Failed => Some("Failed"),
            Self::AwaitingInput => Some("Awaiting input"),
            Self::Working => Some("Working"),
            Self::Queued => Some("Queued"),
            Self::Completed => Some("Completed"),
            Self::Idle => None,
        }
    }

    /// The state's color, or `None` when it should render neutral.
    pub fn color(self, theme: &Theme) -> (r: Option<Tint>)
        ensures
            r == state_tint(self, *theme),
    {
        match self {
            Self::Failed => Some(solid(theme.danger)),
            Self::AwaitingInput => Some(pick(theme, 0xa5b4fc, 0x4f46e5)),
            Self::Working => Some(pick(theme, 0x7dd3fc, 0x0284c7)),
            Self::Completed => Some(pick(theme, 0x6ee7b7, 0x059669)),
            Self::Queued | Self::Idle => None,
        }
    }
}

/// Diff counts: additions and deletions, as in every code review tool.
pub fn diff_colors(theme: &Theme) -> (r: (Tint, Tint))
    ensures
        r == (variant(*theme, 0x6ee7b7, 0x15803d), variant(*theme, 0xfca5a5, 0xb91c1c)),
{
    (pick(theme, 0x6ee7b7, 0x15803d), pick(theme, 0xfca5a5, 0xb91c1c))
}

/// An undelivered send is always shown as failed, and a queued one as queued,
/// whatever the engine says.
pub proof fn send_truth_overrides_the_indicator(indicator: ChatIndicator, queued: bool)
    ensures
        resolved(indicator, queued, true) is Failed,
        resolved(indicator, true, false) is Queued,
{
}

/// A session never needs the user and runs at the same time, and a state is
/// unlabelled exactly when the session is settled and idle.
pub proof fn states_are_told_apart(state: SessionState)
    ensures
        !((state is Failed || state is AwaitingInput) && (state is Working || state is Queued)),
        state_label(state) is None <==> state is Idle,
{
}

} // verus!
