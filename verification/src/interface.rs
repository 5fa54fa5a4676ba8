//! The closed error contract shared by the host and every rule module.
//!
//! Rule modules may only return variants defined here; the host synthesises
//! `EngineInternalError` for failures arising in its own loading, linking or
//! instantiation machinery.

use vstd::prelude::*;
use vstd::string::StringExecFns;

use crate::model::Product;
use crate::model::ProductModel;

verus! {

/// The mathematical value of an [`Error`].
pub enum ErrorModel {
    InvalidProduct(Seq<char>),
    PricingStandardsViolation(Seq<char>),
    EngineInternalError(Seq<char>),
}

/// The closed set of failures a pipeline run can surface, each carrying a
/// human-readable reason.
#[derive(Debug)]
pub enum Error {
    /// The rule module rejected the record itself.
    InvalidProduct(String),
    /// The rule module rejected the record's price.
    PricingStandardsViolation(String),
    /// The loading, linking or instantiation machinery failed, or a module
    /// misused a capability; the diagnostic text is preserved.
    EngineInternalError(String),
}

impl View for Error {
    type V = ErrorModel;

    open spec fn view(&self) -> ErrorModel {
        match self {
            Error::InvalidProduct(m) => ErrorModel::InvalidProduct(m@),
            Error::PricingStandardsViolation(m) => ErrorModel::PricingStandardsViolation(m@),
            Error::EngineInternalError(m) => ErrorModel::EngineInternalError(m@),
        }
    }
}

impl Clone for Error {
    /// A clone carries the same error value.
    fn clone(&self) -> (r: Self)
        ensures
            r@ == self@,
    {
        match self {
            Error::InvalidProduct(m) => Error::InvalidProduct(m.clone()),
            Error::PricingStandardsViolation(m) => Error::PricingStandardsViolation(m.clone()),
            Error::EngineInternalError(m) => Error::EngineInternalError(m.clone()),
        }
    }
}

/// The mathematical value of a pipeline result.
pub open spec fn result_model(r: Result<Product, Error>) -> Result<ProductModel, ErrorModel> {
    match r {
        Ok(p) => Ok(p@),
        Err(e) => Err(e@),
    }
}

/// The rendered form of an error, as callers surface it to clients.
pub open spec fn error_text_model(e: ErrorModel) -> Seq<char> {
    match e {
        ErrorModel::InvalidProduct(m) => "Error::InvalidProduct(\""@ + m + "\")"@,
        ErrorModel::PricingStandardsViolation(m) => "Error::PricingStandardsViolation(\""@ + m
            + "\")"@,
        ErrorModel::EngineInternalError(m) => "Error::EngineInternalError(\""@ + m + "\")"@,
    }
}

/// Renders an error as the text that callers surface to clients: the variant
/// name followed by the quoted reason.
pub fn error_text(e: &Error) -> (s: String)
    ensures
        s@ == error_text_model(e@),
{
    match e {
        Error::InvalidProduct(m) => {
            String::from_str("Error::InvalidProduct(\"").concat(m.as_str()).concat("\")")
        },
        Error::PricingStandardsViolation(m) => {
            String::from_str("Error::PricingStandardsViolation(\"").concat(m.as_str()).concat(
                "\")",
            )
        },
        Error::EngineInternalError(m) => {
            String::from_str("Error::EngineInternalError(\"").concat(m.as_str()).concat("\")")
        },
    }
}

} // verus!
