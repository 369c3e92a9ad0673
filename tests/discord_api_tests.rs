use discord_tracker_action::discord_api::DiscordApi;
use discord_tracker_action::error::TrackerError;
use discord_tracker_action::models::DiscordErrorResponse;

#[test]
fn test_discord_api_new_valid() {
    let result = DiscordApi::new("valid_token", "1234567890123456789");
    assert!(result.is_ok());
}

#[test]
fn test_discord_api_new_invalid_token() {
    let result = DiscordApi::new("", "1234567890123456789");
    assert!(matches!(result, Err(TrackerError::InvalidBotToken)));
}

#[test]
fn test_discord_api_new_invalid_channel_id() {
    let result = DiscordApi::new("valid_token", "invalid_channel");
    assert!(matches!(result, Err(TrackerError::InvalidChannelId(_))));
}

#[test]
fn test_discord_api_new_scientific_notation_channel_id() {
    let result = DiscordApi::new("valid_token", "1.39589530256487E+18");
    assert!(result.is_ok());
}

#[test]
fn api_addresses_and_header() {
    let api = DiscordApi::new("abc", "42").unwrap();
    assert_eq!(api.messages_url(), "https://discord.com/api/v10/channels/42/messages");
    assert_eq!(api.message_url("7"), "https://discord.com/api/v10/channels/42/messages/7");
    assert_eq!(api.authorization(), "Bot abc");
}

#[test]
fn api_status_and_errors() {
    assert!(DiscordApi::is_success_status(200));
    assert!(DiscordApi::is_success_status(204));
    assert!(!DiscordApi::is_success_status(199));
    assert!(!DiscordApi::is_success_status(300));
    assert!(!DiscordApi::is_success_status(404));
    let body = DiscordErrorResponse { code: Some(10008), message: "Unknown Message".to_string() };
    assert_eq!(
        DiscordApi::api_error("404 Not Found", Some(body)),
        TrackerError::DiscordApiError("404 Not Found: Unknown Message".to_string())
    );
    assert_eq!(
        DiscordApi::api_error("500 Internal Server Error", None),
        TrackerError::DiscordApiError("500 Internal Server Error: Unknown error".to_string())
    );
}
