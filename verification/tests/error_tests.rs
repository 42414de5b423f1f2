use aurr_manager::error::AurrError;

#[test]
fn errors_read_as_the_program_shows_them() {
    assert_eq!(AurrError::KeyNotFound("K".to_string()).message(), "Key does not exist: K");
    assert_eq!(
        AurrError::ToolNotFound("velo".to_string()).message(),
        "Tool: velo Does not exist in the tool index"
    );
    assert_eq!(AurrError::InvalidCaseName("C-1".to_string()).message(), "Fix case template name plz");
    assert_eq!(
        AurrError::MissingUploadLocation.message(),
        "Missing valid upload location in env or config"
    );
    assert_eq!(
        AurrError::InvalidResourcePath("x".to_string()).message(),
        "Using wrong separator in container/blob path. Use \"container/blob\" OR \"container::blob\""
    );
    assert_eq!(AurrError::MissingObjectIndex.message(), "Could not find LOCAL_AURROBJECT_INDEX");
}
