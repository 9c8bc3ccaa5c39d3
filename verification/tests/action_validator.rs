use bitnun::consensus::ActionValidator;

#[test]
fn new_validator_detects_fraud() {
    assert!(ActionValidator::new().fraud_detection_enabled());
}

#[test]
fn actions_need_a_tenth_of_a_second_between_them() {
    let validator = ActionValidator::new();
    assert!(validator.validate_action_timing("click", 1100, 1000, 0));
    assert!(!validator.validate_action_timing("click", 1099, 1000, 0));
    assert!(!validator.validate_action_timing("other", 1099, 1000, 0));
    assert!(validator.validate_action_timing("other", 1100, 1000, 0));
}

#[test]
fn an_action_before_the_last_one_is_rejected() {
    let validator = ActionValidator::new();
    assert!(!validator.validate_action_timing("other", 1000, 1000, 0));
    assert!(!validator.validate_action_timing("other", 999, 1000, 0));
    assert!(!validator.validate_action_timing("other", 0, u64::MAX, 0));
}

#[test]
fn sixty_actions_a_minute_are_too_many() {
    let validator = ActionValidator::new();
    assert!(validator.validate_action_timing("click", 2000, 1000, 59));
    assert!(!validator.validate_action_timing("click", 2000, 1000, 60));
    assert!(!validator.validate_action_timing("click", 2000, 1000, u32::MAX));
}

#[test]
fn each_action_type_has_its_own_minimum() {
    let validator = ActionValidator::new();
    assert!(validator.validate_action_timing("scroll", 1500, 1000, 0));
    assert!(!validator.validate_action_timing("scroll", 1499, 1000, 0));
    assert!(validator.validate_action_timing("share", 6000, 1000, 0));
    assert!(!validator.validate_action_timing("share", 5999, 1000, 0));
    assert!(validator.validate_action_timing("form_submit", 2000, 1000, 0));
    assert!(!validator.validate_action_timing("form_submit", 1999, 1000, 0));
    assert!(validator.validate_action_timing("referral", 1100, 1000, 0));
    assert!(validator.validate_action_timing("share", u64::MAX, 0, 0));
}
