//! Tool-family icon hues for transcript tool rows. Color encodes the identity
//! of the action, never decoration: commands, plans, unknown tools and
//! thinking stay neutral, which keeps the tinted families readable.
use vstd::prelude::*;
use crate::entry::{Tool, ToolCall};
use crate::text::same_text;
use crate::theme::{pick, variant, Theme, Tint};

verus! {

/// The display family of one tool call, derived from the typed call.
#[derive(Debug, Clone, Copy, PartialEq, Eq, Structural)]
pub enum ToolFamily {
    /// Reading, searching, listing, fetching - information in.
    Explore,
    /// Writing, editing, patching - tree changes.
    Change,
    /// Subagent spawns and agent-wait calls.
    Delegate,
    /// Everything else: exec, todo, mcp, unknown, thinking.
    Neutral,
}

/// Information comes in.
pub open spec fn explores(tool: Tool) -> bool {
    tool is ReadFile || tool is Search || tool is Glob || tool is WebFetch || tool is WebSearch
}

/// The tree changes.
pub open spec fn changes(tool: Tool) -> bool {
    tool is WriteFile || tool is EditFile || tool is ApplyPatch
}

/// Work is handed to agents: a spawn, or the call that waits for them.
pub open spec fn delegates(call: ToolCall) -> bool {
    call.spawn || match call.tool {
        Tool::Unknown { name, input } => name@ == "Wait for agents"@,
        _ => false,
    }
}

/// The family of one call. Thinking is always neutral, and what a call does
/// counts before who it calls.
pub open spec fn family_of(call: ToolCall, is_thought: bool) -> ToolFamily {
    if is_thought {
        ToolFamily::Neutral
    } else if explores(call.tool) {
        ToolFamily::Explore
    } else if changes(call.tool) {
        ToolFamily::Change
    } else if delegates(call) {
        ToolFamily::Delegate
    } else {
        ToolFamily::Neutral
    }
}

/// The hue of a family.
pub open spec fn family_tint(family: ToolFamily, theme: Theme) -> Option<Tint> {
    match family {
        ToolFamily::Explore => Some(variant(theme, 0x7cc4bd, 0x2f7f78)),
        ToolFamily::Change => Some(variant(theme, 0xd9b26f, 0x946514)),
        ToolFamily::Delegate => Some(variant(theme, 0xc9a0dc, 0x8a4a9e)),
        ToolFamily::Neutral => None,
    }
}

impl ToolFamily {
    pub fn of(call: &ToolCall, is_thought: bool) -> (r: Self)
        ensures
            r == family_of(*call, is_thought),
    {
        if is_thought {
            return Self::Neutral;
        }
        match &call.tool {
            Tool::ReadFile | Tool::Search | Tool::Glob | Tool::WebFetch
            | Tool::WebSearch => Self::Explore,
            Tool::WriteFile | Tool::EditFile | Tool::ApplyPatch => Self::Change,
            Tool::Unknown { name, input: _ } => {
                if call.spawn || same_text(name.as_str(), "Wait for agents") {
                    Self::Delegate
                } else {
                    Self::Neutral
                }
            },
            _ => {
                if call.spawn {
                    Self::Delegate
                } else {
                    Self::Neutral
                }
            },
        }
    }

    /// The family's icon color, or `None` for neutral.
    pub fn color(self, theme: &Theme) -> (r: Option<Tint>)
        ensures
            r == family_tint(self, *theme),
    {
        match self {
            Self::Explore => Some(pick(theme, 0x7cc4bd, 0x2f7f78)),
            Self::Change => Some(pick(theme, 0xd9b26f, 0x946514)),
            Self::Delegate => Some(pick(theme, 0xc9a0dc, 0x8a4a9e)),
            Self::Neutral => None,
        }
    }
}

/// A tinted tool icon can never be misread as session state: no family shares
/// a hue with a live state, whatever the theme's danger colour is.
pub proof fn tool_hues_are_not_status_hues(
    family: ToolFamily,
    state: crate::status_palette::SessionState,
    theme: Theme,
)
    requires
        family_tint(family, theme) is Some,
        !(state is Failed),
    ensures
        family_tint(family, theme) != crate::status_palette::state_tint(state, theme),
{
}

} // verus!
