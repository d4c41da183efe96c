use image_viewer::launch::{resolve_launch, PathKind};

#[test]
fn no_argument_scans_working_directory() {
    let plan = resolve_launch(None, PathKind::Missing, None);
    assert_eq!(plan.folder, "./");
    assert_eq!(plan.initial, None);
}

#[test]
fn missing_path_scans_working_directory() {
    let plan = resolve_launch(Some("nowhere/x.png".to_string()), PathKind::Missing, Some("nowhere".to_string()));
    assert_eq!(plan.folder, "./");
    assert_eq!(plan.initial, None);
}

#[test]
fn directory_is_scanned_itself() {
    let plan = resolve_launch(Some("photos".to_string()), PathKind::Directory, Some("".to_string()));
    assert_eq!(plan.folder, "photos");
    assert_eq!(plan.initial, None);
}

#[test]
fn file_has_its_folder_scanned() {
    let plan = resolve_launch(Some("photos/cat.png".to_string()), PathKind::File, Some("photos".to_string()));
    assert_eq!(plan.folder, "photos");
    assert_eq!(plan.initial, Some("photos/cat.png".to_string()));
}

#[test]
fn bare_file_name_scans_working_directory() {
    let plan = resolve_launch(Some("cat.png".to_string()), PathKind::File, Some("".to_string()));
    assert_eq!(plan.folder, "./");
    assert_eq!(plan.initial, Some("cat.png".to_string()));
    let plan = resolve_launch(Some("/".to_string()), PathKind::File, None);
    assert_eq!(plan.folder, "./");
}
