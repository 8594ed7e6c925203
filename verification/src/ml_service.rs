//! The model itself: a versioned placeholder estimator. `predict` combines
//! the current version, the caller's observation and a bounded placeholder
//! yield into a formatted answer; `retrain` advances the version by one and
//! reports the new version.

use vstd::prelude::*;
use vstd::string::StringExecFns;

use crate::errors::AppError;
use crate::models::CropData;
use crate::text::{centi_str, contains_seq, dec_digit, dec_str, format_centi, lemma_contains_part,
    u32_to_string};

verus! {

/// The shared model: only its version is tracked in this minimal form. The
/// version is a positive integer, starting at 1 and advancing by one on every
/// retraining.
#[derive(Debug, Clone, Copy)]
pub struct MlModel {
    pub version: u32,
}

/// The formatted answer of a prediction, over the observation's fields, the
/// model version and the placeholder yield in hundredths.
pub open spec fn prediction_text(
    crop: Seq<char>,
    version: nat,
    yield_centi: nat,
    temperature: Seq<char>,
    rainfall: Seq<char>,
    soil_ph: Seq<char>,
) -> Seq<char> {
    "Predicted yield for "@ + crop + " (model v"@ + dec_str(version) + "): "@ + centi_str(
        yield_centi,
    ) + " tons/ha. (Temp: "@ + temperature + ", Rain: "@ + rainfall + ", pH: "@ + soil_ph + ")"@
}

/// The message reported by a retraining that produced `version`.
pub open spec fn retrain_text(version: nat) -> Seq<char> {
    "Model successfully retrained. New version: "@ + dec_str(version) + "."@
}

/// Relies on rand::random_range: returns a value sampled from the given
/// range, and panics only if the range is empty; `100..1000` is not, so the
/// result lies in it. The placeholder yield in hundredths of a ton, standing
/// for a real estimator's bounded output in [1.0, 10.0).
#[verifier::external_body]
fn random_yield_centi() -> (y: u32)
    ensures
        100 <= y < 1000,
{
    rand::random_range(100u32..1000u32)
}

impl MlModel {
    /// Constructs the initial model, at version 1. Never fails.
    pub fn load() -> (m: MlModel)
        ensures
            m.version == 1,
    {
        MlModel { version: 1 }
    }

    /// The prediction answer for `data` under this model and the given
    /// placeholder yield: a pure, deterministic formatting of its inputs.
    pub fn predict_with_yield(&self, data: &CropData, yield_centi: u32) -> (r: Result<
        String,
        AppError,
    >)
        ensures
            r is Ok,
            r->Ok_0@ == prediction_text(
                data.crop_type@,
                self.version as nat,
                yield_centi as nat,
                data.temperature@,
                data.rainfall@,
                data.soil_ph@,
            ),
    {
        let mut s = "Predicted yield for ".to_owned();
        s.append(data.crop_type.as_str());
        s.append(" (model v");
        s.append(u32_to_string(self.version).as_str());
        s.append("): ");
        s.append(format_centi(yield_centi).as_str());
        s.append(" tons/ha. (Temp: ");
        s.append(data.temperature.as_str());
        s.append(", Rain: ");
        s.append(data.rainfall.as_str());
        s.append(", pH: ");
        s.append(data.soil_ph.as_str());
        s.append(")");
        proof {
            assert(s@ =~= prediction_text(
                data.crop_type@,
                self.version as nat,
                yield_centi as nat,
                data.temperature@,
                data.rainfall@,
                data.soil_ph@,
            ));
        }
        Ok(s)
    }

    /// A prediction for `data` under this model: the formatted answer for
    /// some placeholder yield in [1.00, 10.00) tons. Does not mutate the
    /// model and never fails.
    pub fn predict(&self, data: &CropData) -> (r: Result<String, AppError>)
        ensures
            r is Ok,
            exists|y: nat|
                100 <= y < 1000 && r->Ok_0@ == #[trigger] prediction_text(
                    data.crop_type@,
                    self.version as nat,
                    y,
                    data.temperature@,
                    data.rainfall@,
                    data.soil_ph@,
                ),
    {
        let yield_centi = random_yield_centi();
        self.predict_with_yield(data, yield_centi)
    }

    /// Retraining: advances the version by exactly one and reports the new
    /// version. Never fails; the version counter's machine limit is the one
    /// input left out.
    pub fn retrain(&mut self) -> (r: Result<String, AppError>)
        requires
            old(self).version < u32::MAX,
        ensures
            final(self).version == old(self).version + 1,
            r is Ok,
            r->Ok_0@ == retrain_text(final(self).version as nat),
    {
        self.version = self.version + 1;
        let mut m = "Model successfully retrained. New version: ".to_owned();
        m.append(u32_to_string(self.version).as_str());
        m.append(".");
        proof {
            assert(m@ =~= retrain_text(self.version as nat));
        }
        Ok(m)
    }
}

/// Law: the prediction answer echoes the crop type, temperature, rainfall and
/// pH verbatim, and carries the rendered yield and the rendered model
/// version.
pub proof fn lemma_prediction_text_echoes(
    crop: Seq<char>,
    version: nat,
    yield_centi: nat,
    temperature: Seq<char>,
    rainfall: Seq<char>,
    soil_ph: Seq<char>,
)
    ensures
        contains_seq(
            prediction_text(crop, version, yield_centi, temperature, rainfall, soil_ph),
            crop,
        ),
        contains_seq(
            prediction_text(crop, version, yield_centi, temperature, rainfall, soil_ph),
            temperature,
        ),
        contains_seq(
            prediction_text(crop, version, yield_centi, temperature, rainfall, soil_ph),
            rainfall,
        ),
        contains_seq(
            prediction_text(crop, version, yield_centi, temperature, rainfall, soil_ph),
            soil_ph,
        ),
        contains_seq(
            prediction_text(crop, version, yield_centi, temperature, rainfall, soil_ph),
            centi_str(yield_centi),
        ),
        contains_seq(
            prediction_text(crop, version, yield_centi, temperature, rainfall, soil_ph),
            dec_str(version),
        ),
{
    let t = prediction_text(crop, version, yield_centi, temperature, rainfall, soil_ph);
    let l1 = "Predicted yield for "@;
    let l2 = " (model v"@;
    let l3 = "): "@;
    let l4 = " tons/ha. (Temp: "@;
    let l5 = ", Rain: "@;
    let l6 = ", pH: "@;
    let l7 = ")"@;
    let dv = dec_str(version);
    let ys = centi_str(yield_centi);
    assert(t =~= l1 + crop + (l2 + dv + l3 + ys + l4 + temperature + l5 + rainfall + l6 + soil_ph
        + l7));
    lemma_contains_part(l1, crop, l2 + dv + l3 + ys + l4 + temperature + l5 + rainfall + l6
        + soil_ph + l7, t);
    assert(t =~= l1 + crop + l2 + dv + (l3 + ys + l4 + temperature + l5 + rainfall + l6 + soil_ph
        + l7));
    lemma_contains_part(l1 + crop + l2, dv, l3 + ys + l4 + temperature + l5 + rainfall + l6
        + soil_ph + l7, t);
    assert(t =~= l1 + crop + l2 + dv + l3 + ys + (l4 + temperature + l5 + rainfall + l6 + soil_ph
        + l7));
    lemma_contains_part(l1 + crop + l2 + dv + l3, ys, l4 + temperature + l5 + rainfall + l6
        + soil_ph + l7, t);
    assert(t =~= l1 + crop + l2 + dv + l3 + ys + l4 + temperature + (l5 + rainfall + l6 + soil_ph
        + l7));
    lemma_contains_part(l1 + crop + l2 + dv + l3 + ys + l4, temperature, l5 + rainfall + l6
        + soil_ph + l7, t);
    assert(t =~= l1 + crop + l2 + dv + l3 + ys + l4 + temperature + l5 + rainfall + (l6 + soil_ph
        + l7));
    lemma_contains_part(l1 + crop + l2 + dv + l3 + ys + l4 + temperature + l5, rainfall, l6
        + soil_ph + l7, t);
    lemma_contains_part(l1 + crop + l2 + dv + l3 + ys + l4 + temperature + l5 + rainfall + l6,
        soil_ph, l7, t);
}

/// Law: a placeholder yield in [100, 1000) hundredths renders as a single
/// integer digit between 1 and 9, a point, and two decimal digits — the
/// textual form of a value in [1.00, 9.99], so inside [1.0, 10.0).
pub proof fn lemma_yield_rendering_bounded(yield_centi: nat)
    requires
        100 <= yield_centi < 1000,
    ensures
        centi_str(yield_centi) =~= seq![
            dec_digit(yield_centi / 100),
            '.',
            dec_digit((yield_centi % 100) / 10),
            dec_digit(yield_centi % 10),
        ],
        1 <= yield_centi / 100 <= 9,
{
    assert(dec_str(yield_centi / 100) =~= seq![dec_digit(yield_centi / 100)]);
}

/// Law: the retraining message names the new version verbatim.
pub proof fn lemma_retrain_text_names_version(version: nat)
    ensures
        contains_seq(retrain_text(version), dec_str(version)),
{
    lemma_contains_part(
        "Model successfully retrained. New version: "@,
        dec_str(version),
        "."@,
        retrain_text(version),
    );
}

} // verus!
