use discord_tracker_action::error::TrackerError;
use discord_tracker_action::pipeline_tracker::PipelineTracker;

#[test]
fn test_validation_integration() {
    let result = PipelineTracker::new("valid_token", "1.39589530256487E+18");
    assert!(result.is_ok());
}

#[test]
fn test_error_propagation() {
    let result = PipelineTracker::new("", "1.39589530256487E+18");
    assert!(matches!(result, Err(TrackerError::InvalidBotToken)));
}
