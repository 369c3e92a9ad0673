use vstd::prelude::*;
use crate::error::TrackerError;
use crate::models::DiscordErrorResponse;
use crate::validation::{validate_bot_token, validate_channel_id, is_valid_channel_id};

verus! {

/// The base of every request: the messages of one channel.
pub open spec fn channel_messages_url(channel_id: Seq<char>) -> Seq<char> {
    "https://discord.com/api/v10/channels/"@ + channel_id + "/messages"@
}

/// The text that an error response gives: its message, or `Unknown error`
/// when the body could not be read.
pub open spec fn error_text(body: Option<DiscordErrorResponse>) -> Seq<char> {
    match body {
        Some(b) => b.message@,
        None => "Unknown error"@,
    }
}

/// Credentials and target of the chat service's message endpoints. The
/// requests themselves are sent by the caller.
pub struct DiscordApi {
    pub bot_token: String,
    pub channel_id: String,
}

impl DiscordApi {
    /// Checks the token, then the channel identifier.
    pub fn new(bot_token: &str, channel_id: &str) -> (r: Result<DiscordApi, TrackerError>)
        ensures
            bot_token@.len() == 0 ==> r == Err::<DiscordApi, TrackerError>(TrackerError::InvalidBotToken),
            bot_token@.len() > 0 && !is_valid_channel_id(channel_id@) ==> r is Err && r->Err_0 is InvalidChannelId
                && r->Err_0->InvalidChannelId_0@ == channel_id@,
            r is Ok <==> bot_token@.len() > 0 && is_valid_channel_id(channel_id@),
            r is Ok ==> r->Ok_0.bot_token@ == bot_token@ && r->Ok_0.channel_id@ == channel_id@,
    {
        match validate_bot_token(bot_token) {
            Err(e) => { return Err(e); },
            Ok(()) => {},
        }
        match validate_channel_id(channel_id) {
            Err(e) => { return Err(e); },
            Ok(()) => {},
        }
        Ok(DiscordApi { bot_token: String::from_str(bot_token), channel_id: String::from_str(channel_id) })
    }

    /// The address at which new messages are created.
    pub fn messages_url(&self) -> (r: String)
        ensures
            r@ == channel_messages_url(self.channel_id@),
    {
        let mut url = String::from_str("https://discord.com/api/v10/channels/");
        url.append(self.channel_id.as_str());
        url.append("/messages");
        url
    }

    /// The address of one message, for updates and deletion.
    pub fn message_url(&self, message_id: &str) -> (r: String)
        ensures
            r@ == channel_messages_url(self.channel_id@) + "/"@ + message_id@,
    {
        let mut url = self.messages_url();
        url.append("/");
        url.append(message_id);
        url
    }

    /// The value of the `Authorization` header.
    pub fn authorization(&self) -> (r: String)
        ensures
            r@ == "Bot "@ + self.bot_token@,
    {
        let mut value = String::from_str("Bot ");
        value.append(self.bot_token.as_str());
        value
    }

    /// Whether an HTTP status code reports success (2xx).
    pub fn is_success_status(status: u16) -> (r: bool)
        ensures
            r == (200 <= status && status < 300),
    {
        200 <= status && status < 300
    }

    /// The error for a failed request: `{status}: {message}`, where `status`
    /// is the text of the HTTP status and `body` the error body, if it could
    /// be read.
    pub fn api_error(status: &str, body: Option<DiscordErrorResponse>) -> (r: TrackerError)
        ensures
            r is DiscordApiError,
            r->DiscordApiError_0@ == status@ + ": "@ + error_text(body),
    {
        let mut text = String::from_str(status);
        text.append(": ");
        match body {
            Some(b) => text.append(b.message.as_str()),
            None => text.append("Unknown error"),
        }
        TrackerError::DiscordApiError(text)
    }
}

} // verus!
