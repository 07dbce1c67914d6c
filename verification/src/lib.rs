use vstd::prelude::*;

pub mod automation;
pub mod command_line;
pub mod extract;
pub mod extractor_timeout;
pub mod failure_message;
pub mod file_arg;
pub mod filetype_report;
pub mod free_space;
pub mod gui;
pub mod guid;
pub mod ini;
pub mod log_eval;
pub mod method_select;
pub mod outdir;
pub mod password_search;
pub mod prefs;
pub mod status;
pub mod text;

