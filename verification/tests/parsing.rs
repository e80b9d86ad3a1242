use catdex::errors::UserError;
use catdex::validation::{id_in_range, parse_and_validate_id};

#[test]
fn parse_accepts_range_bounds() {
    assert_eq!(parse_and_validate_id("1"), Ok(1));
    assert_eq!(parse_and_validate_id("150"), Ok(150));
    assert_eq!(parse_and_validate_id("42"), Ok(42));
}

#[test]
fn parse_tolerates_plus_sign_and_leading_zeros() {
    assert_eq!(parse_and_validate_id("+42"), Ok(42));
    assert_eq!(parse_and_validate_id("042"), Ok(42));
    assert_eq!(parse_and_validate_id("0001"), Ok(1));
}

#[test]
fn parse_rejects_out_of_range_values() {
    assert_eq!(parse_and_validate_id("0"), Err(UserError::ValidationError));
    assert_eq!(parse_and_validate_id("151"), Err(UserError::ValidationError));
    assert_eq!(parse_and_validate_id("1000"), Err(UserError::ValidationError));
    assert_eq!(
        parse_and_validate_id("99999999999999999999"),
        Err(UserError::ValidationError)
    );
}

#[test]
fn parse_rejects_non_integers() {
    assert_eq!(parse_and_validate_id(""), Err(UserError::ValidationError));
    assert_eq!(parse_and_validate_id("+"), Err(UserError::ValidationError));
    assert_eq!(parse_and_validate_id("-3"), Err(UserError::ValidationError));
    assert_eq!(parse_and_validate_id("1a"), Err(UserError::ValidationError));
    assert_eq!(parse_and_validate_id(" 1"), Err(UserError::ValidationError));
    assert_eq!(parse_and_validate_id("1.0"), Err(UserError::ValidationError));
}

#[test]
fn id_range_check_matches_bounds() {
    assert!(!id_in_range(0));
    assert!(id_in_range(1));
    assert!(id_in_range(150));
    assert!(!id_in_range(151));
    assert!(!id_in_range(-1));
}

#[test]
fn error_status_mapping_is_exact() {
    assert_eq!(UserError::ValidationError.status_code(), 400);
    assert_eq!(UserError::DBPoolGetError.status_code(), 500);
    assert_eq!(UserError::NotFoundError.status_code(), 404);
    assert_eq!(UserError::UnexpectedError.status_code(), 500);
    assert_eq!(UserError::MissingUpload.status_code(), 400);
}
