use cachified::validation::{
    validator, FunctionValidator, NoValidator, NonEmptyStringValidator, NonNullValidator,
};
use cachified::{CachifiedError, CheckValue};

#[test]
fn test_function_validator() {
    let validator = validator(|x: &i32| {
        if *x > 0 {
            Ok(())
        } else {
            Err(CachifiedError::validation("Must be positive"))
        }
    });

    assert!(validator.check(&5).is_ok());
    assert!(validator.check(&-1).is_err());
}

#[test]
fn test_non_null_validator() {
    let validator = NonNullValidator;

    assert!(validator.check(&Some(42)).is_ok());
    assert!(validator.check(&None::<i32>).is_err());
}

#[test]
fn test_non_empty_string_validator() {
    let validator = NonEmptyStringValidator;

    assert!(validator.check(&"hello".to_string()).is_ok());
    assert!(validator.check(&"".to_string()).is_err());
    assert!(validator.check(&"world").is_ok());
    assert!(validator.check(&"").is_err());
}

#[test]
fn test_no_validator() {
    let validator = NoValidator;

    assert!(validator.check(&42).is_ok());
    assert!(validator.check(&"anything").is_ok());
    assert!(validator.check(&None::<String>).is_ok());
}

#[test]
fn function_validator_hands_the_error_through() {
    let validator = FunctionValidator::new(|x: &i32| {
        if *x % 2 == 0 {
            Ok(())
        } else {
            Err(CachifiedError::validation("Must be even"))
        }
    });
    assert!(validator.check(&4).is_ok());
    match validator.check(&3) {
        Err(CachifiedError::ValidationError(text)) => assert_eq!(text, "Must be even"),
        other => panic!("unexpected answer: {:?}", other),
    }
}

#[test]
fn non_null_validator_names_its_objection() {
    match NonNullValidator.check(&None::<u8>) {
        Err(CachifiedError::ValidationError(text)) => assert_eq!(text, "Value is None"),
        other => panic!("unexpected answer: {:?}", other),
    }
}

#[test]
fn non_empty_string_validator_names_its_objection() {
    match NonEmptyStringValidator.check(&String::new()) {
        Err(CachifiedError::ValidationError(text)) => assert_eq!(text, "String is empty"),
        other => panic!("unexpected answer: {:?}", other),
    }
    match NonEmptyStringValidator.check(&"") {
        Err(CachifiedError::ValidationError(text)) => assert_eq!(text, "String is empty"),
        other => panic!("unexpected answer: {:?}", other),
    }
    assert!(NonEmptyStringValidator.check(&" ").is_ok());
}
