use agri_backend::errors::AppError;
use agri_backend::handlers::AppState;
use agri_backend::ml_service::MlModel;
use agri_backend::models::CropData;

fn wheat() -> CropData {
    CropData {
        temperature: "25".to_string(),
        rainfall: "100".to_string(),
        soil_ph: "6.5".to_string(),
        crop_type: "wheat".to_string(),
    }
}

#[test]
fn load_starts_at_version_one() {
    let m = MlModel::load();
    assert_eq!(m.version, 1);
}

#[test]
fn predict_formats_inputs_exactly() {
    let m = MlModel { version: 1 };
    let text = m.predict_with_yield(&wheat(), 525).unwrap();
    assert_eq!(
        text,
        "Predicted yield for wheat (model v1): 5.25 tons/ha. (Temp: 25, Rain: 100, pH: 6.5)"
    );
}

#[test]
fn predict_echoes_inputs_and_yield_is_bounded() {
    let m = MlModel::load();
    let text = m.predict(&wheat()).unwrap();
    assert!(text.contains("wheat"));
    assert!(text.contains("25"));
    assert!(text.contains("100"));
    assert!(text.contains("6.5"));
    let start = text.find("): ").unwrap() + 3;
    let end = text.find(" tons/ha.").unwrap();
    let y: f32 = text[start..end].parse().unwrap();
    assert!((1.0..10.0).contains(&y));
}

#[test]
fn predict_does_not_change_the_version() {
    let m = MlModel::load();
    let _ = m.predict(&wheat()).unwrap();
    assert_eq!(m.version, 1);
}

#[test]
fn retrain_increments_version_and_names_it() {
    let mut m = MlModel::load();
    let msg = m.retrain().unwrap();
    assert_eq!(m.version, 2);
    assert_eq!(msg, "Model successfully retrained. New version: 2.");
    assert!(msg.contains("2"));
}

#[test]
fn prediction_after_retrain_reflects_new_version() {
    let mut m = MlModel::load();
    let msg = m.retrain().unwrap();
    assert!(msg.contains("version: 2"));
    let text = m.predict_with_yield(&wheat(), 100).unwrap();
    assert!(text.contains("(model v2)"));
}

#[test]
fn analyze_succeeds_through_the_coordinator() {
    let state = AppState::new(MlModel::load());
    let resp = state.analyze(&wheat()).unwrap();
    assert_eq!(resp.message, "Analysis successful");
    assert!(resp.predicted_yield.contains("wheat"));
    assert!(resp.predicted_yield.contains("(model v1)"));
}

#[test]
fn retrain_through_the_coordinator_reports_new_version() {
    let state = AppState::new(MlModel::load());
    let resp = state.retrain_model().unwrap();
    assert_eq!(resp.status, "success");
    assert_eq!(resp.message, "Model successfully retrained. New version: 2.");
}

#[test]
fn unavailable_state_fails_closed() {
    let state = AppState::new(MlModel::load());
    state.mark_unavailable();
    match state.analyze(&wheat()) {
        Err(AppError::InternalError(m)) => assert_eq!(m, "Failed to acquire model lock"),
        other => panic!("expected an internal error, got {:?}", other),
    }
    match state.retrain_model() {
        Err(AppError::InternalError(m)) => {
            assert_eq!(m, "Failed to acquire model lock for retraining")
        }
        other => panic!("expected an internal error, got {:?}", other),
    }
}

#[test]
fn fifty_interleaved_rounds_reach_the_final_version() {
    let state = AppState::new(MlModel::load());
    let mut last = String::new();
    for _ in 0..50 {
        let p = state.analyze(&wheat()).unwrap();
        assert!(p.predicted_yield.contains("(model v"));
        last = state.retrain_model().unwrap().message;
    }
    assert_eq!(last, "Model successfully retrained. New version: 51.");
}

#[test]
fn exhausted_version_counter_is_a_retraining_error() {
    let state = AppState::new(MlModel { version: u32::MAX });
    match state.retrain_model() {
        Err(AppError::RetrainingError(m)) => assert_eq!(m, "model version counter exhausted"),
        other => panic!("expected a retraining error, got {:?}", other),
    }
}
