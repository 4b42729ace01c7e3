//! The token broker for the chat identity provider: the bootstrap state
//! machine that turns a one-time authorization code into a durable
//! credential, the exact token-exchange request body, expiry decisions,
//! and the small load/update capability the chat transport refreshes
//! through.

use vstd::prelude::*;
use vstd::string::StrSliceExecFns;
use vstd::string::StringExecFns;
use crate::error::TwitchBotError;
use crate::strutil::dec_str;
use crate::strutil::u64_to_string;

verus! {

/// A durable chat-identity credential. `created_at` and `expires_at` are
/// unix seconds; a token without `expires_at` never expires.
#[derive(Debug)]
pub struct AccessToken {
    pub access_token: String,
    pub refresh_token: String,
    pub created_at: i64,
    pub expires_at: Option<i64>,
}

impl Clone for AccessToken {
    fn clone(&self) -> (r: Self)
        ensures
            r == *self,
    {
        AccessToken {
            access_token: self.access_token.clone(),
            refresh_token: self.refresh_token.clone(),
            created_at: self.created_at,
            expires_at: self.expires_at,
        }
    }
}

impl AccessToken {
    /// Whether the token's lifetime has run out at time `now`. A token
    /// without an expiry never needs replacing.
    pub fn is_expired(&self, now: i64) -> (b: bool)
        ensures
            b == match self.expires_at {
                None => false,
                Some(e) => now >= e,
            },
    {
        match self.expires_at {
            None => false,
            Some(e) => now >= e,
        }
    }
}

/// Query parameters delivered to the chat-identity OAuth redirect endpoint.
pub struct TwitchUserAuthResponse {
    pub code: String,
    pub scope: String,
    pub state: Option<String>,
}

/// The fields of a successful token-endpoint response.
pub struct TwitchOAuthResponse {
    pub access_token: String,
    pub expires_in: i64,
    pub refresh_token: String,
}

/// The credential built from a token-endpoint response received at time
/// `now`: stamped as created now, expiring `expires_in` seconds later.
pub open spec fn spec_token_from_exchange(resp: TwitchOAuthResponse, now: i64) -> AccessToken {
    AccessToken {
        access_token: resp.access_token,
        refresh_token: resp.refresh_token,
        created_at: now,
        expires_at: Some((now + resp.expires_in) as i64),
    }
}

/// Parses a token-endpoint response into a credential, stamping
/// `created_at = now`.
pub fn token_from_exchange(resp: TwitchOAuthResponse, now: i64) -> (r: AccessToken)
    requires
        0 <= resp.expires_in,
        now + resp.expires_in <= i64::MAX,
    ensures
        r == spec_token_from_exchange(resp, now),
{
    let expires_at = now + resp.expires_in;
    AccessToken {
        access_token: resp.access_token,
        refresh_token: resp.refresh_token,
        created_at: now,
        expires_at: Some(expires_at),
    }
}

/// The transient per-run bootstrap state machine.
pub enum AuthBootstrapState {
    /// No persisted token; waiting for the redirect to deliver a code.
    WaitingForCode,
    /// A code was handed to the token endpoint; waiting for the outcome.
    Exchanging,
    /// Bootstrap finished with this credential.
    Ready(AccessToken),
    /// The token exchange failed; bootstrap is fatal.
    Failed,
    /// Shutdown was requested while waiting; bootstrap was abandoned.
    Aborted,
}

/// What the surrounding loop observed since the last step.
pub enum BootstrapEvent {
    /// A syntactically valid persisted token was loaded for this service.
    PersistedTokenFound(AccessToken),
    /// Persisted state exists for this service but could not be parsed:
    /// a validation failure, fatal during bootstrap.
    PersistedTokenUnparsable,
    /// The shared slot held an authorization code.
    CodeArrived(String),
    /// The shared slot was still empty.
    SlotEmpty,
    /// The shutdown signal was observed while waiting.
    ShutdownObserved,
    /// The token endpoint answered the exchange with these fields.
    ExchangeSucceeded(TwitchOAuthResponse),
    /// The exchange request failed or its response was malformed.
    ExchangeFailed,
}

/// What the surrounding loop must do next. Only `ExchangeCode` asks for a
/// network call.
pub enum BootstrapAction {
    /// Return this credential without any network call.
    UseToken(AccessToken),
    /// Send the authorization code to the token endpoint.
    ExchangeCode(String),
    /// Sleep for the poll interval and read the slot again.
    PollAgain,
    /// Stop bootstrap and report it as aborted.
    AbortBootstrap,
    /// Persist this credential keyed by service name, then return it.
    PersistAndUse(AccessToken),
    /// Stop bootstrap and report the fatal failure.
    FailBootstrap,
    /// Stop bootstrap: the persisted state is invalid, and the process
    /// must not proceed on a credential it cannot trust.
    FailValidation,
    /// The event does not apply in this state; nothing to do.
    Ignore,
}

/// The bootstrap transition relation: next state and required action for
/// each state and observation.
pub open spec fn spec_acquire_step(
    state: AuthBootstrapState,
    event: BootstrapEvent,
    now: i64,
) -> (AuthBootstrapState, BootstrapAction) {
    match (state, event) {
        (AuthBootstrapState::WaitingForCode, BootstrapEvent::PersistedTokenFound(t)) => (
            AuthBootstrapState::Ready(t),
            BootstrapAction::UseToken(t),
        ),
        (AuthBootstrapState::WaitingForCode, BootstrapEvent::PersistedTokenUnparsable) => (
            AuthBootstrapState::Failed,
            BootstrapAction::FailValidation,
        ),
        (AuthBootstrapState::WaitingForCode, BootstrapEvent::CodeArrived(code)) => (
            AuthBootstrapState::Exchanging,
            BootstrapAction::ExchangeCode(code),
        ),
        (AuthBootstrapState::WaitingForCode, BootstrapEvent::SlotEmpty) => (
            AuthBootstrapState::WaitingForCode,
            BootstrapAction::PollAgain,
        ),
        (AuthBootstrapState::WaitingForCode, BootstrapEvent::ShutdownObserved) => (
            AuthBootstrapState::Aborted,
            BootstrapAction::AbortBootstrap,
        ),
        (AuthBootstrapState::Exchanging, BootstrapEvent::ExchangeSucceeded(resp)) => (
            AuthBootstrapState::Ready(spec_token_from_exchange(resp, now)),
            BootstrapAction::PersistAndUse(spec_token_from_exchange(resp, now)),
        ),
        (AuthBootstrapState::Exchanging, BootstrapEvent::ExchangeFailed) => (
            AuthBootstrapState::Failed,
            BootstrapAction::FailBootstrap,
        ),
        (s, _) => (s, BootstrapAction::Ignore),
    }
}

/// One step of credential bootstrap. The surrounding loop performs the
/// returned action (sleep, network call, persistence) and feeds the next
/// observation back in.
pub fn acquire_step(state: AuthBootstrapState, event: BootstrapEvent, now: i64) -> (r: (
    AuthBootstrapState,
    BootstrapAction,
))
    requires
        state is Exchanging ==> (event matches BootstrapEvent::ExchangeSucceeded(resp) ==> 0
            <= resp.expires_in && now + resp.expires_in <= i64::MAX),
    ensures
        r == spec_acquire_step(state, event, now),
{
    match (state, event) {
        (AuthBootstrapState::WaitingForCode, BootstrapEvent::PersistedTokenFound(t)) => {
            let t2 = t.clone();
            (AuthBootstrapState::Ready(t), BootstrapAction::UseToken(t2))
        },
        (AuthBootstrapState::WaitingForCode, BootstrapEvent::PersistedTokenUnparsable) => (
            AuthBootstrapState::Failed,
            BootstrapAction::FailValidation,
        ),
        (AuthBootstrapState::WaitingForCode, BootstrapEvent::CodeArrived(code)) => (
            AuthBootstrapState::Exchanging,
            BootstrapAction::ExchangeCode(code),
        ),
        (AuthBootstrapState::WaitingForCode, BootstrapEvent::SlotEmpty) => (
            AuthBootstrapState::WaitingForCode,
            BootstrapAction::PollAgain,
        ),
        (AuthBootstrapState::WaitingForCode, BootstrapEvent::ShutdownObserved) => (
            AuthBootstrapState::Aborted,
            BootstrapAction::AbortBootstrap,
        ),
        (AuthBootstrapState::Exchanging, BootstrapEvent::ExchangeSucceeded(resp)) => {
            let tok = token_from_exchange(resp, now);
            let tok2 = tok.clone();
            (AuthBootstrapState::Ready(tok), BootstrapAction::PersistAndUse(tok2))
        },
        (AuthBootstrapState::Exchanging, BootstrapEvent::ExchangeFailed) => (
            AuthBootstrapState::Failed,
            BootstrapAction::FailBootstrap,
        ),
        (s, _) => (s, BootstrapAction::Ignore),
    }
}

/// A syntactically valid persisted token short-circuits bootstrap: it is
/// returned at once, and the required action involves no network call.
pub proof fn lemma_persisted_token_short_circuits(t: AccessToken, now: i64)
    ensures
        spec_acquire_step(AuthBootstrapState::WaitingForCode, BootstrapEvent::PersistedTokenFound(t), now)
            == (AuthBootstrapState::Ready(t), BootstrapAction::UseToken(t)),
{
}

/// The only step that asks for a network call is the exchange of a freshly
/// arrived authorization code: no other state and observation can demand
/// one.
pub proof fn lemma_exchange_only_after_code(
    state: AuthBootstrapState,
    event: BootstrapEvent,
    now: i64,
)
    ensures
        spec_acquire_step(state, event, now).1 matches BootstrapAction::ExchangeCode(c) ==> (
        state is WaitingForCode && event == BootstrapEvent::CodeArrived(c)),
{
}

/// Reads the shared code slot and the shutdown flag into the bootstrap
/// observation they stand for: shutdown wins, an empty slot means keep
/// polling, and a non-empty slot carries the code.
pub fn slot_event(code: &str, shutdown: bool) -> (r: BootstrapEvent)
    ensures
        shutdown ==> r is ShutdownObserved,
        (!shutdown && code@.len() == 0) ==> r is SlotEmpty,
        (!shutdown && code@.len() > 0) ==> (r matches BootstrapEvent::CodeArrived(c) && c@
            == code@),
{
    if shutdown {
        BootstrapEvent::ShutdownObserved
    } else if code.unicode_len() == 0 {
        BootstrapEvent::SlotEmpty
    } else {
        BootstrapEvent::CodeArrived(code.to_owned())
    }
}

/// The form body of the authorization-code exchange request, exactly as
/// the token endpoint expects it.
pub fn token_exchange_body(client_id: &str, client_secret: &str, code: &str, port: u16) -> (r:
    String)
    ensures
        r@ == "client_id="@ + client_id@ + "&client_secret="@ + client_secret@ + "&code="@ + code@
            + "&grant_type=authorization_code&redirect_uri=http://localhost:"@ + dec_str(
            port as nat,
        ) + "/auth"@,
{
    let mut r = String::from_str("client_id=");
    r.append(client_id);
    r.append("&client_secret=");
    r.append(client_secret);
    r.append("&code=");
    r.append(code);
    r.append("&grant_type=authorization_code&redirect_uri=http://localhost:");
    r.append(u64_to_string(port as u64).as_str());
    r.append("/auth");
    r
}

/// The in-memory credential capability handed to the chat transport: it
/// loads the current token and accepts refreshed ones, ignorant of
/// persistence.
#[derive(Debug)]
pub struct TwitchTokenStorage {
    pub token: AccessToken,
}

impl TwitchTokenStorage {
    /// Hands out the current credential; never fails.
    pub fn load_token(&mut self) -> (r: Result<AccessToken, TwitchBotError>)
        ensures
            *final(self) == *old(self),
            r matches Ok(t) && t == old(self).token,
    {
        Ok(self.token.clone())
    }

    /// Accepts a refreshed credential; never fails.
    pub fn update_token(&mut self, token: &AccessToken) -> (r: Result<(), TwitchBotError>)
        ensures
            final(self).token == *token,
            r is Ok,
    {
        self.token = token.clone();
        Ok(())
    }
}

/// A credential capability that may still be empty: loading fails until a
/// token has been stored.
#[derive(Debug)]
pub struct HappyeBotTokenStorage {
    pub token: Option<AccessToken>,
}

impl HappyeBotTokenStorage {
    /// Hands out the current credential, or reports that none is held yet.
    pub fn load_token(&mut self) -> (r: Result<AccessToken, TwitchBotError>)
        ensures
            *final(self) == *old(self),
            old(self).token matches Some(t) ==> (r matches Ok(t2) && t2 == t),
            old(self).token is None ==> r == Result::<AccessToken, TwitchBotError>::Err(
                TwitchBotError::TwitchTokenLoadError,
            ),
    {
        match &self.token {
            Some(t) => Ok(t.clone()),
            None => Err(TwitchBotError::TwitchTokenLoadError),
        }
    }

    /// Accepts a refreshed credential; never fails.
    pub fn update_token(&mut self, token: &AccessToken) -> (r: Result<(), TwitchBotError>)
        ensures
            final(self).token == Some(*token),
            r is Ok,
    {
        self.token = Some(token.clone());
        Ok(())
    }
}

} // verus!
