//! Decision logic of the Noches desktop interface.

pub mod action_catalog;
pub mod agents_view;
pub mod assistant_laws;
pub mod browser_agent;
pub mod catalog_laws;
pub mod clock;
pub mod codec;
pub mod composition;
pub mod desk_laws;
pub mod display_laws;
pub mod drag_laws;
pub mod entry;
pub mod gesture_laws;
pub mod icon_laws;
pub mod json;
pub mod layout;
pub mod layout_file;
pub mod list;
pub mod pane_drag;
pub mod pane_header;
pub mod pane_shell;
pub mod pane_surfaces;
pub mod panel_laws;
pub mod plan_hud;
pub mod project_icon;
pub mod scrollbar;
pub mod session_laws;
pub mod session_surface;
pub mod sidebar_buddy;
pub mod station_laws;
pub mod status_palette;
pub mod subagent_laws;
pub mod subagents;
pub mod terminal_laws;
pub mod terminal_panel;
pub mod terminal_requests;
pub mod terminal_run;
pub mod terminal_tabs;
pub mod terminal_view;
pub mod text;
pub mod text_laws;
pub mod theme;
pub mod tool_palette;
pub mod update_laws;
pub mod updates;
pub mod voice_actions;
pub mod voice_laws;
pub mod voice_runner;
pub mod voice_session;
pub mod voice_tools;
pub mod voice_turn;
pub mod workspace;
pub mod workspace_laws;
