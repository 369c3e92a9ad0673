//! Tracks the steps of a CI pipeline and renders them into a single chat
//! message that is posted once and then edited as the pipeline advances.
//!
//! The library decides what to post, what to edit and what to store; the
//! caller performs the network requests and the file operations.

pub mod error;
pub mod text;
pub mod validation;
pub mod time;
pub mod models;
pub mod message_builder;
pub mod discord_api;
pub mod storage;
pub mod pipeline_tracker;

pub use error::TrackerError;
pub use time::Timestamp;
pub use models::{DiscordEmbed, DiscordErrorResponse, DiscordField, DiscordFooter, DiscordMessage, StepInfo, StepStatus};
pub use storage::{MessageStorage, PipelineState};
pub use validation::{validate_bot_token, validate_channel_id, validate_step_number};
pub use message_builder::{build_completion_embed, build_init_embed, build_step_update_embed};
pub use discord_api::DiscordApi;
pub use pipeline_tracker::{CompletionOutcome, MessagePatch, PipelineTracker, PrInfo, StepOutcome};
