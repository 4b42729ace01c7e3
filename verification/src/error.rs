//! Error taxonomy for the bot: transport/IO, network, validation and
//! protocol failures, plus the credential-storage failure modes.

use vstd::prelude::*;

verus! {

/// Every failure the bot core can report. Payload-free: the surrounding
/// binary wraps the underlying library errors and maps them onto these
/// variants before handing outcomes back to the core.
#[derive(Clone, Copy, Debug, PartialEq, Eq, Structural)]
pub enum TwitchBotError {
    /// Reading or writing persisted state failed.
    IoError,
    /// A token-exchange or external-API request failed.
    ResponseError,
    /// A chat protocol value was rejected by the transport.
    TwitchIrcValidationError,
    /// A persisted value or a response could not be parsed or validated.
    ValidationError,
    /// The credential store had no token to load.
    TwitchTokenLoadError,
    /// The credential store could not accept an updated token.
    TwitchTokenUpdateError,
    /// Bootstrap was abandoned because shutdown was requested while
    /// waiting for an authorization code.
    BootstrapAborted,
}

pub type TwitchBotResult<T> = Result<T, TwitchBotError>;

impl TwitchBotError {
    /// A short human-readable description of the failure.
    pub fn message(&self) -> (r: &'static str)
        ensures
            r@.len() > 0,
    {
        let s: &'static str = match self {
            TwitchBotError::IoError => "could not read or write persisted state",
            TwitchBotError::ResponseError => "external request failed",
            TwitchBotError::TwitchIrcValidationError => "invalid chat protocol value",
            TwitchBotError::ValidationError => "invalid persisted or response data",
            TwitchBotError::TwitchTokenLoadError => "could not load Twitch token",
            TwitchBotError::TwitchTokenUpdateError => "could not update Twitch token",
            TwitchBotError::BootstrapAborted => "bootstrap aborted by shutdown",
        };
        proof {
            reveal_strlit("could not read or write persisted state");
            reveal_strlit("external request failed");
            reveal_strlit("invalid chat protocol value");
            reveal_strlit("invalid persisted or response data");
            reveal_strlit("could not load Twitch token");
            reveal_strlit("could not update Twitch token");
            reveal_strlit("bootstrap aborted by shutdown");
        }
        s
    }
}

} // verus!
