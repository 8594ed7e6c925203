//! The request coordinator: one shared model instance behind a verified
//! exclusive-access lock. Every operation — prediction or retraining — runs
//! alone in its critical section; a state marked unusable after a fault fails
//! closed with an internal error instead of handing out a possibly corrupted
//! model.

use vstd::prelude::*;
use vstd::rwlock::{RwLock, RwLockPredicate};

use crate::errors::AppError;
use crate::ml_service::{prediction_text, retrain_text, MlModel};
use crate::models::{CropData, PredictionResponse, SuccessResponse};

verus! {

/// What the coordinator's lock guards: the model, or the record that a
/// catastrophic fault has made the shared state permanently unusable.
pub enum ModelSlot {
    Available(MlModel),
    Unavailable,
}

/// The lock invariant: whatever model the slot holds has a positive version.
pub struct ModelSlotInv {}

impl RwLockPredicate<ModelSlot> for ModelSlotInv {
    open spec fn inv(self, s: ModelSlot) -> bool {
        s matches ModelSlot::Available(m) ==> m.version >= 1
    }
}

/// The shared state of the service: the single model instance, reachable only
/// through the exclusive-access operations below.
pub struct AppState {
    pub ml_model: RwLock<ModelSlot, ModelSlotInv>,
}

impl AppState {
    /// A service over the supplied model. The version is positive by the
    /// model's own invariant; it stays so for the life of the service.
    pub fn new(model: MlModel) -> AppState
        requires
            model.version >= 1,
    {
        AppState { ml_model: RwLock::new(ModelSlot::Available(model), Ghost(ModelSlotInv {})) }
    }

    /// A prediction request: takes exclusive access, asks the model, releases.
    /// On success the answer is the model's formatted text for some version
    /// the model really held and some placeholder yield in [1.00, 10.00); the
    /// only failure is an unusable shared state, reported as an internal
    /// error with exactly this message.
    pub fn analyze(&self, data: &CropData) -> (r: Result<PredictionResponse, AppError>)
        ensures
            r is Ok ==> r->Ok_0.message@ == "Analysis successful"@ && exists|v: nat, y: nat|
                1 <= v && 100 <= y < 1000 && r->Ok_0.predicted_yield@ == #[trigger] prediction_text(
                    data.crop_type@,
                    v,
                    y,
                    data.temperature@,
                    data.rainfall@,
                    data.soil_ph@,
                ),
            r is Err ==> (r->Err_0 matches AppError::InternalError(m) && m@
                == "Failed to acquire model lock"@),
    {
        let (slot, handle) = self.ml_model.acquire_write();
        match slot {
            ModelSlot::Available(model) => {
                let res = model.predict(data);
                handle.release_write(ModelSlot::Available(model));
                match res {
                    Ok(text) => Ok(
                        PredictionResponse {
                            message: "Analysis successful".to_owned(),
                            predicted_yield: text,
                        },
                    ),
                    // the model's contract rules this arm out
                    Err(_) => unreached(),
                }
            },
            ModelSlot::Unavailable => {
                handle.release_write(ModelSlot::Unavailable);
                Err(AppError::InternalError("Failed to acquire model lock".to_owned()))
            },
        }
    }

    /// A retraining request: takes exclusive access, advances the model's
    /// version by exactly one, releases, and reports a message naming the new
    /// version (at least 2, since the old version was positive). The failures
    /// are an unusable shared state (internal error) and an exhausted version
    /// counter (retraining error), each with exactly the stated message.
    pub fn retrain_model(&self) -> (r: Result<SuccessResponse, AppError>)
        ensures
            r is Ok ==> r->Ok_0.status@ == "success"@ && exists|v: nat|
                2 <= v && r->Ok_0.message@ == #[trigger] retrain_text(v),
            r is Err ==> (r->Err_0 matches AppError::InternalError(m) && m@
                == "Failed to acquire model lock for retraining"@) || (r->Err_0 matches
                AppError::RetrainingError(m) && m@ == "model version counter exhausted"@),
    {
        let (slot, handle) = self.ml_model.acquire_write();
        match slot {
            ModelSlot::Available(mut model) => {
                if model.version == u32::MAX {
                    handle.release_write(ModelSlot::Available(model));
                    Err(AppError::RetrainingError("model version counter exhausted".to_owned()))
                } else {
                    let res = model.retrain();
                    handle.release_write(ModelSlot::Available(model));
                    match res {
                        Ok(message) => Ok(
                            SuccessResponse { status: "success".to_owned(), message },
                        ),
                        // the model's contract rules this arm out
                        Err(_) => unreached(),
                    }
                }
            },
            ModelSlot::Unavailable => {
                handle.release_write(
                    ModelSlot::Unavailable,
                );
                Err(
                    AppError::InternalError(
                        "Failed to acquire model lock for retraining".to_owned(),
                    ),
                )
            },
        }
    }

    /// Marks the shared state unusable, as after a catastrophic fault inside
    /// a critical section: the service fails closed, and every later
    /// operation reports an internal error instead of touching a possibly
    /// corrupted model.
    pub fn mark_unavailable(&self) {
        let (_slot, handle) = self.ml_model.acquire_write();
        handle.release_write(ModelSlot::Unavailable);
    }
}

} // verus!
