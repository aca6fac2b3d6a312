//! Tests of the spend-projection request model: growth-model selection and
//! request validation.

use escrow_engine::spending::{growth_type_of, validate_user_request, CreateUserRequest,
    GrowthType, SpendingError};

#[test]
fn growth_labels_map_to_models() {
    assert_eq!(growth_type_of("compound"), GrowthType::Compound);
    assert_eq!(growth_type_of("flat"), GrowthType::Flat);
    assert_eq!(
        growth_type_of("base * (1 + rate * year) * 1.1"),
        GrowthType::Custom("base * (1 + rate * year) * 1.1".to_string())
    );
}

#[test]
fn zero_projection_years_are_rejected() {
    let bad = CreateUserRequest { user_id: "user1".to_string(), projection_years: 0 };
    match validate_user_request(&bad) {
        Err(SpendingError::InvalidYears(_)) => {}
        other => panic!("expected InvalidYears, got {:?}", other),
    }
    let good = CreateUserRequest { user_id: "user1".to_string(), projection_years: 5 };
    assert!(validate_user_request(&good).is_ok());
}
