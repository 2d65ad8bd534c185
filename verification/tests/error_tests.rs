use meilisearch_bridge::errors::{
    check_not_disposed, live_resource, task_panicked, BridgeError, BridgeErrorCode, EngineErrorKind,
    ErrorStatus,
};

#[test]
fn code_names_are_stable() {
    assert_eq!(BridgeErrorCode::Internal.name(), "Internal");
    assert_eq!(BridgeErrorCode::InvalidArgument.name(), "InvalidArgument");
    assert_eq!(BridgeErrorCode::IndexAlreadyExists.name(), "IndexAlreadyExists");
    assert_eq!(BridgeErrorCode::TaskNotFound.name(), "TaskNotFound");
    assert_eq!(BridgeErrorCode::Disposed.name(), "Disposed");
    assert_eq!(BridgeErrorCode::OutOfBound.name(), "OutOfBound");
}

#[test]
fn only_invalid_argument_is_an_invalid_arg_status() {
    assert_eq!(BridgeErrorCode::InvalidArgument.status(), ErrorStatus::InvalidArg);
    for code in [
        BridgeErrorCode::Internal,
        BridgeErrorCode::IoError,
        BridgeErrorCode::IndexNotFound,
        BridgeErrorCode::SearchError,
        BridgeErrorCode::TaskNotFound,
    ] {
        assert_eq!(code.status(), ErrorStatus::GenericFailure);
    }
}

#[test]
fn an_error_is_described_as_code_colon_message() {
    let e = BridgeError::new(BridgeErrorCode::SearchError, "bad query".to_string());
    assert_eq!(e.describe(), "SearchError: bad query");
}

#[test]
fn engine_failures_are_classified_by_kind() {
    assert_eq!(BridgeError::from_engine(EngineErrorKind::Io, "disk".into()).code, BridgeErrorCode::IoError);
    assert_eq!(BridgeError::from_engine(EngineErrorKind::Internal, "x".into()).code, BridgeErrorCode::Internal);
    let user = BridgeError::from_engine(EngineErrorKind::User, "missing primary key".into());
    assert_eq!(user.code, BridgeErrorCode::InvalidArgument);
    assert_eq!(user.message, "missing primary key");
    assert_eq!(BridgeError::from_io("denied".into()).code, BridgeErrorCode::IoError);
}

#[test]
fn a_disposed_handle_is_refused() {
    assert!(check_not_disposed(false).is_ok());
    let e = check_not_disposed(true).unwrap_err();
    assert_eq!(e.code, BridgeErrorCode::Disposed);
    assert_eq!(e.message, "cannot use a disposed handle");
    assert_eq!(live_resource(Some(5)).unwrap(), 5);
    assert_eq!(live_resource::<u8>(None).unwrap_err().code, BridgeErrorCode::Disposed);
}

#[test]
fn a_panicked_job_is_an_internal_error() {
    let e = task_panicked("search", "boom");
    assert_eq!(e.code, BridgeErrorCode::Internal);
    assert_eq!(e.message, "search task panicked: boom");
}
