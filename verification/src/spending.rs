//! The spend-projection request model that accompanies the escrow engine
//! in the same service: growth-model selection and request validation.
//!
//! Only the discrete parts live here — the growth-model taxonomy, the
//! request shape, and the validation rules. The monetary projection itself
//! works on fractional amounts and a formula interpreter and stays with
//! the unverified adapter.

use vstd::prelude::*;
use vstd::string::StringExecFns;

verus! {

/// Everything the projection side can reject.
#[derive(Debug, Clone, PartialEq, Eq)]
pub enum SpendingError {
    /// A growth rate below minus one hundred percent.
    InvalidGrowthRate(String),
    /// A custom growth formula the interpreter cannot evaluate.
    FormulaError(String),
    /// A projection span of zero years.
    InvalidYears(String),
}

/// How a project's yearly spend grows over the projection span.
#[derive(Debug, Clone, PartialEq, Eq)]
pub enum GrowthType {
    /// The rate compounds year over year.
    Compound,
    /// The rate applies linearly to the base.
    Flat,
    /// A caller-supplied formula, evaluated by an outside interpreter.
    Custom(String),
}

/// A request to create a projection user: an identifier and the number of
/// years to project.
#[derive(Debug, Clone, PartialEq, Eq)]
pub struct CreateUserRequest {
    pub user_id: String,
    pub projection_years: u32,
}

/// Selects the growth model named by a request label: `compound` and
/// `flat` name the built-in models; any other label is kept verbatim as a
/// custom formula.
pub fn growth_type_of(label: &str) -> (r: GrowthType)
    ensures
        label@ == "compound"@ ==> r == GrowthType::Compound,
        label@ != "compound"@ && label@ == "flat"@ ==> r == GrowthType::Flat,
        label@ != "compound"@ && label@ != "flat"@ ==> (r matches GrowthType::Custom(s) && s@
            == label@),
{
    let owned = label.to_owned();
    if owned.eq(&String::from_str("compound")) {
        GrowthType::Compound
    } else if owned.eq(&String::from_str("flat")) {
        GrowthType::Flat
    } else {
        GrowthType::Custom(owned)
    }
}

/// Validates a projection request: the span must be at least one year;
/// a zero span is rejected with `InvalidYears`.
pub fn validate_user_request(req: &CreateUserRequest) -> (r: Result<(), SpendingError>)
    ensures
        r is Ok <==> req.projection_years > 0,
        r is Err ==> r->Err_0 matches SpendingError::InvalidYears(_),
{
    if req.projection_years == 0 {
        Err(
            SpendingError::InvalidYears(
                String::from_str("Projection years must be greater than 0"),
            ),
        )
    } else {
        Ok(())
    }
}

} // verus!
