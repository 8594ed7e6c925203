//! The plain data carried across the service boundary: the observation that a
//! prediction is asked for, and the response and error payload shapes.

use vstd::prelude::*;

verus! {

/// One agricultural observation, as supplied by a caller. The numeric
/// measurements are carried in their textual form: the service only ever
/// echoes them back into its formatted answer, never computes with them.
#[derive(Debug, Clone)]
pub struct CropData {
    pub temperature: String,
    pub rainfall: String,
    pub soil_ph: String,
    pub crop_type: String,
}

/// A successful prediction: a status message and the formatted yield text.
#[derive(Debug)]
pub struct PredictionResponse {
    pub message: String,
    pub predicted_yield: String,
}

/// A successful retraining: a status indicator and a message naming the new
/// model version.
#[derive(Debug)]
pub struct SuccessResponse {
    pub status: String,
    pub message: String,
}

/// The boundary-facing shape of an error: a status code, a machine-readable
/// kind, and a human-readable message.
#[derive(Debug)]
pub struct JsonErrorResponsePayload {
    pub status_code: u16,
    pub error_type: String,
    pub message: String,
}

} // verus!
