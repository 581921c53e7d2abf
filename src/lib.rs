//! Settings persistence and storage-location reporting for a desktop shell.
//!
//! The library holds the decisions; the host performs the file and
//! directory work that those decisions ask for and reports what happened.
mod config_manager;
mod error;
mod json;
mod schemas;
mod settings;
mod utils;

pub use config_manager::{
    finished, lemma_load_reads_saved_text, lemma_missing_file_gives_default,
    lemma_reset_returns_written_default, load_app_config, moved, reset_app_config,
    save_app_config, ConfigAction, ConfigJob, ConfigReply, ConfigSession, Phase,
    SETTINGS_FILE_NAME,
};
pub use error::CommandError;
pub use json::{default_doc, json_accepts, parsed_doc, pretty_text};
pub use schemas::StorageInfo;
pub use settings::{dir_field, get_storage_locations, DirLookup, DirLookups};
pub use utils::open_folder_result;
