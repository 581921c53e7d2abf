use vstd::prelude::*;

verus! {

/// The application's OS directories as text. A field is `None` when its
/// directory has no Unicode rendering.
#[derive(Debug, Clone, PartialEq)]
pub struct StorageInfo {
    pub app_data_dir: Option<String>,
    pub app_config_dir: Option<String>,
    pub app_cache_dir: Option<String>,
    pub app_local_data_dir: Option<String>,
    pub app_log_dir: Option<String>,
}

} // verus!
