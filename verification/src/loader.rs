//! Normalisation of module run outcomes.
//!
//! Instantiating and invoking a foreign module can fail in the machinery
//! itself: the binary may not satisfy the interface contract, linking or
//! instantiation may fail, or the module may trap mid-run. Every such
//! failure is normalised to `EngineInternalError` carrying the underlying
//! diagnostic text, and is never allowed to unwind into the host. A result
//! the module itself returned — acceptance or an explicit rejection — passes
//! through untouched.

use vstd::prelude::*;

use crate::interface::Error;
use crate::interface::ErrorModel;
use crate::interface::result_model;
use crate::model::Product;
use crate::model::ProductModel;

verus! {

/// What became of one attempt to instantiate a module and invoke its entry
/// point.
pub enum EngineOutcome {
    /// The module ran to completion and returned this result itself.
    Completed(Result<Product, Error>),
    /// Compiling, linking or instantiating the module failed with this
    /// diagnostic; the entry point never ran.
    InstantiationFailed(String),
    /// The module trapped while running, with this diagnostic.
    Trapped(String),
}

/// The mathematical value of an [`EngineOutcome`].
pub enum EngineOutcomeModel {
    Completed(Result<ProductModel, ErrorModel>),
    InstantiationFailed(Seq<char>),
    Trapped(Seq<char>),
}

impl View for EngineOutcome {
    type V = EngineOutcomeModel;

    open spec fn view(&self) -> EngineOutcomeModel {
        match self {
            EngineOutcome::Completed(res) => EngineOutcomeModel::Completed(result_model(*res)),
            EngineOutcome::InstantiationFailed(d) => EngineOutcomeModel::InstantiationFailed(d@),
            EngineOutcome::Trapped(d) => EngineOutcomeModel::Trapped(d@),
        }
    }
}

/// The caller-facing result an outcome normalises to: a module's own result
/// passes through; a failure of the machinery becomes `EngineInternalError`
/// with the diagnostic preserved.
pub open spec fn conclude_model(o: EngineOutcomeModel) -> Result<ProductModel, ErrorModel> {
    match o {
        EngineOutcomeModel::Completed(res) => res,
        EngineOutcomeModel::InstantiationFailed(d) => Err(ErrorModel::EngineInternalError(d)),
        EngineOutcomeModel::Trapped(d) => Err(ErrorModel::EngineInternalError(d)),
    }
}

/// Translates a module run outcome into the caller-facing result. A module
/// that failed to instantiate, or trapped, yields `EngineInternalError` —
/// never a panic of the host.
pub fn conclude_run(outcome: EngineOutcome) -> (r: Result<Product, Error>)
    ensures
        result_model(r) == conclude_model(outcome@),
{
    match outcome {
        EngineOutcome::Completed(res) => res,
        EngineOutcome::InstantiationFailed(d) => Err(Error::EngineInternalError(d)),
        EngineOutcome::Trapped(d) => Err(Error::EngineInternalError(d)),
    }
}

} // verus!
