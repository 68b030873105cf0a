use northstar_dev_testing_helper_tool::errors::ApplyError;
use northstar_dev_testing_helper_tool::install::{
    batch_file_content, batch_file_path, managed_dir_path, marker_path, mods_dest_path,
    validate_game_path,
};

#[test]
fn validate_accepts_directory_with_marker() {
    assert!(validate_game_path(true).is_ok());
}

#[test]
fn validate_rejects_directory_without_marker() {
    assert!(matches!(
        validate_game_path(false),
        Err(ApplyError::InvalidGamePath)
    ));
}

#[test]
fn installer_paths_are_built_from_the_game_path() {
    let game = "/games/Titanfall2".to_string();
    assert_eq!(marker_path(&game), "/games/Titanfall2/Titanfall2.exe");
    assert_eq!(
        managed_dir_path(&game),
        "/games/Titanfall2/R2Northstar-PR-test-managed-folder"
    );
    assert_eq!(
        mods_dest_path(&game),
        "/games/Titanfall2/R2Northstar-PR-test-managed-folder/mods"
    );
    assert_eq!(
        batch_file_path(&game),
        "/games/Titanfall2/r2ns-launch-mod-pr-version.bat"
    );
}

#[test]
fn batch_file_content_is_exact() {
    assert_eq!(
        batch_file_content(),
        "NorthstarLauncher.exe -profile=R2Northstar-PR-test-managed-folder\r\n"
    );
}
