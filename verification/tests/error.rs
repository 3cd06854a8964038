use obce::error::{
    classify, default_require_ret_val, to_critical_error, CriticalError, DeclError, ErrorTaxonomy,
    ErrorValue, ErrorVariantDecl, Outcome, SupportCriticalError,
};

fn plain() -> ErrorVariantDecl {
    ErrorVariantDecl { critical: false, ret_val: None }
}

fn critical() -> ErrorVariantDecl {
    ErrorVariantDecl { critical: true, ret_val: None }
}

fn mapped(code: u32) -> ErrorVariantDecl {
    ErrorVariantDecl { critical: false, ret_val: Some(code) }
}

#[test]
fn error_macro_with_critical_works() {
    let tax = ErrorTaxonomy::validate(vec![plain(), critical()], true).unwrap();
    assert_eq!(tax.variant_count(), 2);

    let critical_value = ErrorValue { variant: 1, critical_payload: Some(CriticalError::BadOrigin) };
    let result: Result<(), ErrorValue> = Err(critical_value);
    assert_eq!(to_critical_error(result), Err(CriticalError::BadOrigin));

    let ordinary = ErrorValue { variant: 0, critical_payload: None };
    let result: Result<(), ErrorValue> = Err(ordinary);
    assert_eq!(to_critical_error(result), Ok(Err(ordinary)));
}

#[test]
fn error_macro_with_enforced_ret_val_works() {
    let tax = ErrorTaxonomy::validate(vec![mapped(100), mapped(200)], true).unwrap();
    assert!(matches!(tax.ret_val_of(0), Some(100)));
    assert!(matches!(tax.ret_val_of(1), Some(200)));
}

#[test]
fn error_macro_with_relaxed_ret_val_works() {
    let tax = ErrorTaxonomy::validate(vec![mapped(100), plain()], false).unwrap();
    assert!(matches!(tax.ret_val_of(0), Some(_)));
    assert!(tax.ret_val_of(1).is_none());
}

#[test]
fn two_critical_variants_are_rejected() {
    let r = ErrorTaxonomy::validate(vec![plain(), critical(), critical()], true);
    assert!(matches!(r, Err(DeclError::MultipleCritical)));
}

#[test]
fn duplicate_ret_vals_are_rejected() {
    let r = ErrorTaxonomy::validate(vec![mapped(100), mapped(200), mapped(100)], true);
    assert!(matches!(r, Err(DeclError::DuplicateRetVal)));
}

#[test]
fn missing_ret_val_is_rejected_when_required() {
    // A variant without a mapping after a mapped one is refused...
    let r = ErrorTaxonomy::validate(vec![mapped(100), plain()], true);
    assert!(matches!(r, Err(DeclError::MissingRetVal)));
    // ...but an unmapped variant before the first mapped one is fine,
    // and so is the relaxed mode.
    assert!(ErrorTaxonomy::validate(vec![plain(), mapped(100)], true).is_ok());
    assert!(ErrorTaxonomy::validate(vec![mapped(100), plain()], false).is_ok());
}

#[test]
fn oversized_declarations_are_rejected() {
    let mut variants = Vec::new();
    for code in 0..256u32 {
        variants.push(mapped(code));
    }
    let r = ErrorTaxonomy::validate(variants, true);
    assert!(matches!(r, Err(DeclError::TooManyVariants)));
    let mut variants = Vec::new();
    for code in 0..255u32 {
        variants.push(mapped(code));
    }
    assert!(ErrorTaxonomy::validate(variants, true).is_ok());
}

#[test]
fn classify_splits_critical_from_recoverable() {
    let success = classify(Ok(obce::codec::OutputValue::Word(7)));
    assert_eq!(success, Outcome::Success(obce::codec::OutputValue::Word(7)));

    let ordinary = ErrorValue { variant: 0, critical_payload: None };
    assert_eq!(classify(Err(ordinary)), Outcome::Recoverable(ordinary));

    let fatal = ErrorValue { variant: 1, critical_payload: Some(CriticalError::Exhausted) };
    assert_eq!(classify(Err(fatal)), Outcome::Critical(CriticalError::Exhausted));
}

#[test]
fn try_to_critical_extracts_only_the_critical_variant() {
    let fatal = ErrorValue { variant: 1, critical_payload: Some(CriticalError::BadOrigin) };
    assert_eq!(fatal.try_to_critical(), Ok(CriticalError::BadOrigin));

    let ordinary = ErrorValue { variant: 0, critical_payload: None };
    assert_eq!(ordinary.try_to_critical(), Err(ordinary));
}

#[test]
fn ret_val_lookup_is_bounded() {
    let tax = ErrorTaxonomy::validate(vec![mapped(100)], true).unwrap();
    assert!(tax.ret_val_of(5).is_none());
    assert!(default_require_ret_val());
}
