use agri_backend::errors::AppError;

#[test]
fn status_codes_classify_the_kinds() {
    assert_eq!(AppError::ModelInference("x".to_string()).status_code(), 500);
    assert_eq!(AppError::ModelNotLoaded("x".to_string()).status_code(), 503);
    assert_eq!(AppError::RetrainingError("x".to_string()).status_code(), 500);
    assert_eq!(AppError::InternalError("x".to_string()).status_code(), 500);
}

#[test]
fn error_types_name_the_kinds() {
    assert_eq!(
        AppError::ModelInference("x".to_string()).error_type(),
        "ModelInferenceError"
    );
    assert_eq!(
        AppError::ModelNotLoaded("x".to_string()).error_type(),
        "ModelNotLoadedError"
    );
    assert_eq!(
        AppError::RetrainingError("x".to_string()).error_type(),
        "RetrainingError"
    );
    assert_eq!(
        AppError::InternalError("x".to_string()).error_type(),
        "InternalServerError"
    );
}

#[test]
fn messages_carry_prefix_and_description() {
    assert_eq!(
        AppError::ModelInference("bad input".to_string()).message(),
        "ML Model Inference Error: bad input"
    );
    assert_eq!(
        AppError::ModelNotLoaded("still starting".to_string()).message(),
        "Model Not Loaded: still starting"
    );
    assert_eq!(
        AppError::RetrainingError("no data".to_string()).message(),
        "Retraining Error: no data"
    );
    assert_eq!(
        AppError::InternalError("lock".to_string()).message(),
        "Internal Server Error: lock"
    );
}

#[test]
fn error_response_assembles_the_payload() {
    let p = AppError::ModelNotLoaded("still starting".to_string()).error_response();
    assert_eq!(p.status_code, 503);
    assert_eq!(p.error_type, "ModelNotLoadedError");
    assert_eq!(p.message, "Model Not Loaded: still starting");

    let p = AppError::InternalError("lock".to_string()).error_response();
    assert_eq!(p.status_code, 500);
    assert_eq!(p.error_type, "InternalServerError");
    assert_eq!(p.message, "Internal Server Error: lock");
}
