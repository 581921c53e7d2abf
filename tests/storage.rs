use app_settings::{get_storage_locations, open_folder_result, CommandError, DirLookup, DirLookups, StorageInfo};

fn found(s: &str) -> DirLookup {
    DirLookup::Found(s.to_string())
}

fn all_found() -> DirLookups {
    DirLookups {
        data: found("/home/u/.local/share/app"),
        config: found("/home/u/.config/app"),
        cache: found("/home/u/.cache/app"),
        local_data: found("/home/u/.local/share/app-local"),
        log: found("/home/u/.local/share/app/logs"),
    }
}

#[test]
fn all_five_directories_resolved() {
    let info = get_storage_locations(all_found()).unwrap();
    assert_eq!(
        info,
        StorageInfo {
            app_data_dir: Some("/home/u/.local/share/app".to_string()),
            app_config_dir: Some("/home/u/.config/app".to_string()),
            app_cache_dir: Some("/home/u/.cache/app".to_string()),
            app_local_data_dir: Some("/home/u/.local/share/app-local".to_string()),
            app_log_dir: Some("/home/u/.local/share/app/logs".to_string()),
        }
    );
}

#[test]
fn non_unicode_directory_is_absent_field() {
    let mut lookups = all_found();
    lookups.cache = DirLookup::NotUnicode;
    let info = get_storage_locations(lookups).unwrap();
    assert_eq!(info.app_cache_dir, None);
    assert_eq!(info.app_log_dir, Some("/home/u/.local/share/app/logs".to_string()));
}

#[test]
fn any_single_failure_fails_the_whole_call() {
    for i in 0..5 {
        let mut lookups = all_found();
        let failed = DirLookup::Failed(format!("lookup {} failed", i));
        match i {
            0 => lookups.data = failed,
            1 => lookups.config = failed,
            2 => lookups.cache = failed,
            3 => lookups.local_data = failed,
            _ => lookups.log = failed,
        }
        assert_eq!(
            get_storage_locations(lookups),
            Err(CommandError::PathResolution(format!("lookup {} failed", i)))
        );
    }
}

#[test]
fn first_failure_in_order_is_reported() {
    let mut lookups = all_found();
    lookups.log = DirLookup::Failed("log".to_string());
    lookups.config = DirLookup::Failed("config".to_string());
    lookups.data = DirLookup::NotUnicode;
    assert_eq!(
        get_storage_locations(lookups),
        Err(CommandError::PathResolution("config".to_string()))
    );
}

#[test]
fn open_folder_outcomes() {
    assert_eq!(open_folder_result(Ok(())), Ok(()));
    assert_eq!(
        open_folder_result(Err("no such file".to_string())),
        Err(CommandError::OpenFailed("no such file".to_string()))
    );
}
