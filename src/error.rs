use vstd::prelude::*;

verus! {

/// Every way an invocation of the tracker can fail.
#[derive(Debug, Clone, PartialEq, Eq)]
pub enum TrackerError {
    MissingEnvironmentVariable(String),
    DiscordApiError(String),
    HttpError(String),
    JsonError(String),
    FileSystemError(String),
    InvalidStatus(String),
    InvalidStepNumber(u32),
    InvalidTotalSteps(u32),
    StepNumberExceedsTotal(u32, u32),
    MessageIdNotFound,
    InvalidChannelId(String),
    InvalidBotToken,
    RateLimited(u64),
    Unauthorized,
    Forbidden,
    MessageNotFound,
    UnknownDiscordError(String),
}

} // verus!
