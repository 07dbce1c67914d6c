//! The application's own GUI: the decisions its windows, dialogs and
//! tray make. Rendering and the OS calls are the application's; every
//! function here is a decision over values the caller already has.
pub mod about;
pub mod app;
pub mod batch_queue;
pub mod context_menu;
pub mod context_menu_registry;
pub mod drag_drop;
pub mod error_dialogs;
pub mod feedback;
pub mod feedback_prompt;
pub mod file_assoc;
pub mod file_input;
pub mod first_start;
pub mod layout;
pub mod log_actions;
pub mod missing_helper;
pub mod plugin_manager;
pub mod prefs_dialog;
pub mod prompt;
pub mod stats;
pub mod theme;
pub mod tray;
pub mod tray_icon_shell;
pub mod tray_status_box;
pub mod uninstall_dialog;
pub mod update_prompt;
pub mod window_state;
