//! The service's error taxonomy and its mapping to the boundary-facing
//! payload: each kind carries a descriptive message and maps to a status
//! classification and a machine-readable kind name.

use vstd::prelude::*;
use vstd::string::StringExecFns;

use crate::models::JsonErrorResponsePayload;

verus! {

/// Everything that can go wrong in the service. `ModelInference`,
/// `ModelNotLoaded` and `RetrainingError` are reserved kinds: with the current
/// synchronous loading and placeholder estimator they are reachable only where
/// the version counter is exhausted. `InternalError` reports that exclusive
/// access to the shared model could not be granted.
#[derive(Debug)]
pub enum AppError {
    ModelInference(String),
    ModelNotLoaded(String),
    RetrainingError(String),
    InternalError(String),
}

impl AppError {
    /// The HTTP-style status classification: service-unavailable for a model
    /// that is not loaded, server-error for everything else.
    pub open spec fn spec_status_code(self) -> u16 {
        match self {
            AppError::ModelInference(_) => 500,
            AppError::ModelNotLoaded(_) => 503,
            AppError::RetrainingError(_) => 500,
            AppError::InternalError(_) => 500,
        }
    }

    /// The machine-readable kind name of this error.
    pub open spec fn spec_error_type(self) -> Seq<char> {
        match self {
            AppError::ModelInference(_) => "ModelInferenceError"@,
            AppError::ModelNotLoaded(_) => "ModelNotLoadedError"@,
            AppError::RetrainingError(_) => "RetrainingError"@,
            AppError::InternalError(_) => "InternalServerError"@,
        }
    }

    /// The human-readable message of this error: a kind prefix followed by the
    /// carried description.
    pub open spec fn spec_message(self) -> Seq<char> {
        match self {
            AppError::ModelInference(s) => "ML Model Inference Error: "@ + s@,
            AppError::ModelNotLoaded(s) => "Model Not Loaded: "@ + s@,
            AppError::RetrainingError(s) => "Retraining Error: "@ + s@,
            AppError::InternalError(s) => "Internal Server Error: "@ + s@,
        }
    }

    pub fn status_code(&self) -> (c: u16)
        ensures
            c == self.spec_status_code(),
    {
        match self {
            AppError::ModelInference(_) => 500,
            AppError::ModelNotLoaded(_) => 503,
            AppError::RetrainingError(_) => 500,
            AppError::InternalError(_) => 500,
        }
    }

    pub fn error_type(&self) -> (t: String)
        ensures
            t@ == self.spec_error_type(),
    {
        match self {
            AppError::ModelInference(_) => "ModelInferenceError".to_owned(),
            AppError::ModelNotLoaded(_) => "ModelNotLoadedError".to_owned(),
            AppError::RetrainingError(_) => "RetrainingError".to_owned(),
            AppError::InternalError(_) => "InternalServerError".to_owned(),
        }
    }

    pub fn message(&self) -> (m: String)
        ensures
            m@ == self.spec_message(),
    {
        match self {
            AppError::ModelInference(s) => {
                let mut m = "ML Model Inference Error: ".to_owned();
                m.append(s.as_str());
                m
            },
            AppError::ModelNotLoaded(s) => {
                let mut m = "Model Not Loaded: ".to_owned();
                m.append(s.as_str());
                m
            },
            AppError::RetrainingError(s) => {
                let mut m = "Retraining Error: ".to_owned();
                m.append(s.as_str());
                m
            },
            AppError::InternalError(s) => {
                let mut m = "Internal Server Error: ".to_owned();
                m.append(s.as_str());
                m
            },
        }
    }

    /// The boundary-facing payload for this error: its status classification,
    /// kind name and message.
    pub fn error_response(&self) -> (p: JsonErrorResponsePayload)
        ensures
            p.status_code == self.spec_status_code(),
            p.error_type@ == self.spec_error_type(),
            p.message@ == self.spec_message(),
    {
        JsonErrorResponsePayload {
            status_code: self.status_code(),
            error_type: self.error_type(),
            message: self.message(),
        }
    }
}

} // verus!
