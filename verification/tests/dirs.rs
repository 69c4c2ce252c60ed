use backend_supervisor::dirs::{app_data_base, app_dir_name, required_subdirs};

#[test]
fn data_root_uses_the_environment_value() {
    let r = app_data_base(Some("C:\\Users\\me\\AppData\\Roaming".to_string()));
    assert_eq!(r, "C:\\Users\\me\\AppData\\Roaming");
}

#[test]
fn data_root_falls_back_to_the_current_directory() {
    assert_eq!(app_data_base(None), ".");
}

#[test]
fn application_directory_name() {
    assert_eq!(app_dir_name(), "MyLife");
}

#[test]
fn backend_layout_is_complete() {
    let subdirs = required_subdirs();
    assert_eq!(subdirs.len(), 4);
    assert_eq!(subdirs[0], vec!["db".to_string()]);
    assert_eq!(subdirs[1], vec!["storage".to_string(), "photos".to_string()]);
    assert_eq!(subdirs[2], vec!["storage".to_string(), "backups_tmp".to_string()]);
    assert_eq!(subdirs[3], vec!["models".to_string()]);
}
