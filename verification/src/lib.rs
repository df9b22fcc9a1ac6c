use vstd::prelude::*;

pub mod text;
pub mod config;
pub mod escape;
pub mod sql_text;
pub mod db_sql;
pub mod settings;
pub mod env;
pub mod cli_args;
pub mod env_file;
pub mod export_page;
pub mod progress;
pub mod item_run;
pub mod export_run;
pub mod cells;
pub mod import;
pub mod tui_state;
pub mod tui_keys;
pub mod connect;
pub mod form;
pub mod form_laws;
pub mod env_roundtrip;
pub mod cli_laws;

verus! {
} // verus!
