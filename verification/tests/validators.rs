use hellai_core::errors::CoreErrors;
use hellai_core::queries::companies_query::convert_to_identifier;
use hellai_core::roles::{default_roles, role_name, TaskStatusType};
use hellai_core::validators::{
    email_format_validation, empty_validation, hex_color_validator, login_format_validation,
    max_symbols_validator_20, max_symbols_validator_250, min_symbols_validator_3,
    no_special_symbols_validator, password_format_validation, CompositValidator, ValidatorKind,
};

fn err_message(r: Result<String, CoreErrors>) -> String {
    match r {
        Err(CoreErrors::DataValidationError(m)) => m,
        other => panic!("expected a validation error, got {:?}", other),
    }
}

#[test]
fn login_validation() {
    assert_eq!(
        err_message(login_format_validation("ab".to_string())),
        "login_format_error_min_length"
    );
    assert_eq!(
        err_message(login_format_validation("12345".to_string())),
        "login_format_error_only_numbers"
    );
    assert_eq!(
        err_message(login_format_validation("has space".to_string())),
        "login_format_error_no_whitespace"
    );
    assert_eq!(login_format_validation("alice1".to_string()), Ok("alice1".to_string()));
}

#[test]
fn password_validation() {
    assert_eq!(
        err_message(password_format_validation("Ab1".to_string())),
        "password_format_error_min_length"
    );
    assert_eq!(
        err_message(password_format_validation("Abc 123".to_string())),
        "password_format_error_no_whitespace"
    );
    assert_eq!(
        err_message(password_format_validation("abcdef1".to_string())),
        "password_format_error_missing_requirements"
    );
    assert_eq!(
        password_format_validation("Abcdef1".to_string()),
        Ok("Abcdef1".to_string())
    );
}

#[test]
fn email_validation() {
    assert_eq!(
        err_message(email_format_validation("no-at-sign".to_string())),
        "email_format_error_invalid_at_symbol"
    );
    assert_eq!(
        err_message(email_format_validation("two@at@signs.com".to_string())),
        "email_format_error_invalid_at_symbol"
    );
    assert_eq!(
        err_message(email_format_validation("@nolocal.com".to_string())),
        "email_format_error_empty_local_or_domain"
    );
    assert_eq!(
        err_message(email_format_validation("nodomain@".to_string())),
        "email_format_error_empty_local_or_domain"
    );
    assert_eq!(
        err_message(email_format_validation("user@nodot".to_string())),
        "email_format_error_invalid_domain"
    );
    assert_eq!(
        email_format_validation("user@site.com".to_string()),
        Ok("user@site.com".to_string())
    );
}

#[test]
fn simple_validators() {
    assert_eq!(err_message(empty_validation("".to_string())), "validator_empty");
    assert_eq!(empty_validation("x".to_string()), Ok("x".to_string()));
    assert_eq!(err_message(min_symbols_validator_3("ab".to_string())), "validator_min_symbols");
    assert_eq!(min_symbols_validator_3("abc".to_string()), Ok("abc".to_string()));
    let long21: String = "a".repeat(21);
    assert_eq!(err_message(max_symbols_validator_20(long21)), "validator_max_symbols");
    let long20: String = "a".repeat(20);
    assert_eq!(max_symbols_validator_20(long20.clone()), Ok(long20));
    let long251: String = "b".repeat(251);
    assert_eq!(err_message(max_symbols_validator_250(long251)), "validator_max_symbols");
    assert_eq!(
        err_message(no_special_symbols_validator("with-dash".to_string())),
        "validator_special_symbols"
    );
    assert_eq!(
        no_special_symbols_validator("plain words 42".to_string()),
        Ok("plain words 42".to_string())
    );
}

#[test]
fn hex_color_validation() {
    assert_eq!(hex_color_validator("#abc".to_string()), Ok("#abc".to_string()));
    assert_eq!(hex_color_validator("#A1B2C3".to_string()), Ok("#A1B2C3".to_string()));
    assert_eq!(
        err_message(hex_color_validator("abc".to_string())),
        "validator_invalid_hex_color"
    );
    assert_eq!(
        err_message(hex_color_validator("#abcd".to_string())),
        "validator_invalid_hex_color"
    );
    assert_eq!(
        err_message(hex_color_validator("#ggg".to_string())),
        "validator_invalid_hex_color"
    );
}

#[test]
fn composite_validator_applies_in_order() {
    let validator = CompositValidator::new(vec![
        ValidatorKind::Empty,
        ValidatorKind::MinSymbols3,
        ValidatorKind::MaxSymbols20,
        ValidatorKind::NoSpecialSymbols,
    ]);
    assert_eq!(validator.validate("Good name".to_string()), Ok("Good name".to_string()));
    // The first failing validator wins: the empty string fails Empty, not
    // MinSymbols3.
    assert_eq!(err_message(validator.validate("".to_string())), "validator_empty");
    assert_eq!(err_message(validator.validate("ab".to_string())), "validator_min_symbols");
    assert_eq!(
        err_message(validator.validate("bad!name".to_string())),
        "validator_special_symbols"
    );
}

#[test]
fn identifier_conversion_filters_and_lowercases() {
    // Would fail if the lowercasing wrapper handed its argument back
    // unchanged or the filter kept non-alphanumerics.
    assert_eq!(convert_to_identifier("AbC 12!x"), "abc12x".to_string());
    assert_eq!(convert_to_identifier("Tech Corp"), "techcorp".to_string());
    assert_eq!(convert_to_identifier(""), "".to_string());
}

#[test]
fn task_status_parsing() {
    assert_eq!(TaskStatusType::try_from_text("pending"), Ok(TaskStatusType::Pending));
    assert_eq!(TaskStatusType::try_from_text("in_progress"), Ok(TaskStatusType::InProgress));
    assert_eq!(TaskStatusType::try_from_text("completed"), Ok(TaskStatusType::Completed));
    assert!(TaskStatusType::try_from_text("done").is_err());
}

#[test]
fn role_catalog() {
    let roles = default_roles();
    assert_eq!(roles.len(), 6);
    assert_eq!(roles[0].name, "Owner");
    assert_eq!(roles[0].level, 1);
    assert_eq!(roles[5].name, "Guest");
    assert_eq!(roles[5].level, 6);
    assert_eq!(role_name(3), "Manager".to_string());
    assert_eq!(role_name(42), "Unknown".to_string());
}
