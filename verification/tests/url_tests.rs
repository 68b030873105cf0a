use northstar_dev_testing_helper_tool::download::{check_download_status, temp_zip_name};
use northstar_dev_testing_helper_tool::errors::ApplyError;
use northstar_dev_testing_helper_tool::strutil::u64_to_decimal;
use northstar_dev_testing_helper_tool::urls::{
    artifact_download_url, artifacts_api_url, mods_archive_url, runs_api_url,
};

#[test]
fn decimal_rendering() {
    assert_eq!(u64_to_decimal(0), "0");
    assert_eq!(u64_to_decimal(7), "7");
    assert_eq!(u64_to_decimal(10), "10");
    assert_eq!(u64_to_decimal(409), "409");
    assert_eq!(u64_to_decimal(1234567890), "1234567890");
    assert_eq!(u64_to_decimal(u64::MAX), "18446744073709551615");
}

#[test]
fn mods_archive_url_shape() {
    let full_name = "R2Northstar/NorthstarMods".to_string();
    let head_ref = "feature/new-stuff".to_string();
    assert_eq!(
        mods_archive_url(&full_name, &head_ref),
        "https://github.com/R2Northstar/NorthstarMods/archive/refs/heads/feature/new-stuff.zip"
    );
}

#[test]
fn runs_api_url_is_fixed() {
    assert_eq!(
        runs_api_url(),
        "https://api.github.com/repos/R2Northstar/NorthstarLauncher/actions/runs"
    );
}

#[test]
fn artifacts_api_url_splices_run_id() {
    assert_eq!(
        artifacts_api_url(2519644798),
        "https://api.github.com/repos/R2Northstar/NorthstarLauncher/actions/runs/2519644798/artifacts"
    );
}

#[test]
fn artifact_download_url_splices_artifact_id() {
    assert_eq!(
        artifact_download_url(277977513),
        "https://nightly.link/R2Northstar/NorthstarLauncher/actions/artifacts/277977513.zip"
    );
}

#[test]
fn download_status_accepts_only_success_range() {
    assert!(check_download_status(200).is_ok());
    assert!(check_download_status(204).is_ok());
    assert!(check_download_status(299).is_ok());
    assert!(matches!(
        check_download_status(199),
        Err(ApplyError::HttpStatus { code: 199 })
    ));
    assert!(matches!(
        check_download_status(301),
        Err(ApplyError::HttpStatus { code: 301 })
    ));
    assert!(matches!(
        check_download_status(404),
        Err(ApplyError::HttpStatus { code: 404 })
    ));
    assert!(matches!(
        check_download_status(500),
        Err(ApplyError::HttpStatus { code: 500 })
    ));
}

#[test]
fn temp_zip_name_is_fixed() {
    assert_eq!(temp_zip_name(), "ns-dev-test-helper-temp-pr-files.zip");
}
