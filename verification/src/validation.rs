//! The validation facade: the single host-facing decision of whether the
//! rules pipeline runs at all.
//!
//! The pipeline runs only when it is enabled and its module binary is
//! present. An absent binary means "no pipeline configured" and the record
//! passes unchanged — not an error — while a present-but-broken binary
//! surfaces as `EngineInternalError`, so callers can tell the two apart.

use vstd::prelude::*;

use crate::configuration::Settings;
use crate::interface::Error;
use crate::interface::result_model;
use crate::loader::EngineOutcome;
use crate::loader::conclude_model;
use crate::loader::conclude_run;
use crate::model::Product;

verus! {

/// Relies on std's `Path::exists` to ask the filesystem whether a path is
/// present and reachable. What is on disk can change between any two calls,
/// so nothing is promised of the answer.
#[verifier::external_body]
fn path_exists(path: &str) -> bool {
    std::path::Path::new(path).exists()
}

/// Whether the configured module binary is present on disk. The answer is
/// the filesystem's and may change between calls, so nothing is promised of
/// it; the facade's contract speaks of whatever answer was obtained.
pub fn wasm_bin_path_exists(wasm_bin_path: &str) -> bool {
    path_exists(wasm_bin_path)
}

/// The pipeline runs exactly when it is enabled and its module binary is
/// present.
pub fn pipeline_applies(settings: &Settings, binary_present: bool) -> (b: bool)
    ensures
        b == (settings.wasm_rules_engine_enabled && binary_present),
{
    settings.wasm_rules_engine_enabled && binary_present
}

/// Validates a record against the configured pipeline.
///
/// `binary_present` is the answer of [`wasm_bin_path_exists`] for the
/// configured path, and `engine_outcome` is what running the module made of
/// the record — supplied exactly when the pipeline applies, since no module
/// is touched otherwise.
///
/// With the pipeline disabled the record passes unchanged, whatever is on
/// disk; with the binary absent the record passes unchanged, whatever the
/// flag says. Otherwise the module run's outcome is normalised and returned
/// untouched.
pub fn validate_product(
    settings: &Settings,
    binary_present: bool,
    product: &Product,
    engine_outcome: Option<EngineOutcome>,
) -> (r: Result<Product, Error>)
    requires
        (settings.wasm_rules_engine_enabled && binary_present) <==> engine_outcome is Some,
    ensures
        !settings.wasm_rules_engine_enabled ==> (r matches Ok(q) && q@ == product@),
        !binary_present ==> (r matches Ok(q) && q@ == product@),
        engine_outcome matches Some(o) ==> result_model(r) == conclude_model(o@),
{
    match engine_outcome {
        Some(outcome) => conclude_run(outcome),
        None => Ok(product.clone()),
    }
}

} // verus!
