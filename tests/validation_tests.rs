use discord_tracker_action::error::TrackerError;
use discord_tracker_action::validation::{validate_bot_token, validate_channel_id, validate_step_number};

#[test]
fn test_validate_bot_token() {
    assert!(validate_bot_token("valid_token").is_ok());

    assert!(matches!(
        validate_bot_token(""),
        Err(TrackerError::InvalidBotToken)
    ));
}

#[test]
fn test_validate_channel_id() {
    assert!(validate_channel_id("1234567890123456789").is_ok());

    assert!(validate_channel_id("1.39589530256487E+18").is_ok());
    assert!(validate_channel_id("1.39589530256487e+18").is_ok());

    assert!(matches!(
        validate_channel_id(""),
        Err(TrackerError::InvalidChannelId(_))
    ));

    assert!(matches!(
        validate_channel_id("123abc456"),
        Err(TrackerError::InvalidChannelId(_))
    ));

    assert!(matches!(
        validate_channel_id("1.2E+invalid"),
        Err(TrackerError::InvalidChannelId(_))
    ));
}

#[test]
fn test_validate_step_number() {
    assert!(validate_step_number(1, 10).is_ok());
    assert!(validate_step_number(5, 10).is_ok());
    assert!(validate_step_number(10, 10).is_ok());

    assert!(matches!(
        validate_step_number(0, 10),
        Err(TrackerError::InvalidStepNumber(0))
    ));

    assert!(matches!(
        validate_step_number(1, 0),
        Err(TrackerError::InvalidTotalSteps(0))
    ));

    assert!(matches!(
        validate_step_number(11, 10),
        Err(TrackerError::StepNumberExceedsTotal(11, 10))
    ));
}

#[test]
fn channel_id_scientific_forms() {
    assert!(validate_channel_id("1e5").is_ok());
    assert!(validate_channel_id("-2.5E-3").is_ok());
    assert!(validate_channel_id(".5e1").is_ok());
    assert!(validate_channel_id("5.e1").is_ok());
    assert!(validate_channel_id("e5").is_err());
    assert!(validate_channel_id("1e").is_err());
    assert!(validate_channel_id("1.2.3e4").is_err());
    assert!(validate_channel_id("1e5e6").is_err());
    assert!(validate_channel_id(".e5").is_err());
}

#[test]
fn channel_id_error_carries_input() {
    assert_eq!(
        validate_channel_id("12 34"),
        Err(TrackerError::InvalidChannelId("12 34".to_string()))
    );
    assert!(validate_channel_id("-12").is_err());
    assert!(validate_channel_id("0").is_ok());
}

#[test]
fn step_number_checks_in_order() {
    assert_eq!(validate_step_number(0, 0), Err(TrackerError::InvalidStepNumber(0)));
    assert_eq!(validate_step_number(u32::MAX, u32::MAX), Ok(()));
    assert_eq!(
        validate_step_number(u32::MAX, 1),
        Err(TrackerError::StepNumberExceedsTotal(u32::MAX, 1))
    );
}
