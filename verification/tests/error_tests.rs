use northstar_dev_testing_helper_tool::errors::ApplyError;

#[test]
fn error_messages_describe_each_failure() {
    assert_eq!(
        ApplyError::Network { cause: "timed out".to_string() }.message(),
        "network failure: timed out"
    );
    assert_eq!(
        ApplyError::HttpStatus { code: 404 }.message(),
        "download refused with HTTP status 404"
    );
    assert_eq!(
        ApplyError::Parse { cause: "bad json".to_string() }.message(),
        "malformed data: bad json"
    );
    assert_eq!(
        ApplyError::NotFound.message(),
        "no matching pull request build was found"
    );
    assert_eq!(
        ApplyError::InvalidGamePath.message(),
        "not a valid game installation"
    );
    assert_eq!(
        ApplyError::Filesystem {
            operation: "remove-file".to_string(),
            cause: "permission denied".to_string(),
        }
        .message(),
        "file-system operation remove-file failed: permission denied"
    );
}
