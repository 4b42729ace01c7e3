//! What the two OAuth redirect endpoints do with a delivered code: store
//! it in the shared pending-code slot and answer with a static
//! confirmation body. The HTTP routing itself lives in the surrounding
//! binary.

use vstd::prelude::*;
use vstd::string::StringExecFns;
use crate::auth::TwitchUserAuthResponse;
use crate::spotify::models::SpotifyAuthResponse;

verus! {

/// The shared pending-authorization-code slot for one service. An empty
/// string means no code has been delivered yet.
pub struct AuthCodeSlot {
    pub code: String,
}

impl AuthCodeSlot {
    /// An empty slot.
    pub fn new() -> (r: Self)
        ensures
            r.code@.len() == 0,
    {
        AuthCodeSlot { code: String::new() }
    }

    /// Stores a freshly delivered code, replacing whatever was there.
    pub fn store_code(&mut self, code: String)
        ensures
            final(self).code == code,
    {
        self.code = code;
    }
}

/// The static body every redirect request is answered with: the closing
/// words and a party-popper character.
pub fn confirmation_body() -> (r: String)
    ensures
        r@ == "You can close this now "@.push('\u{1F389}'),
{
    let mut r = String::from_str("You can close this now ");
    r.push('\u{1F389}');
    r
}

/// Handles the chat-identity redirect: the delivered code goes into the
/// slot and the confirmation body is returned.
pub fn handle_auth_redirect(slot: &mut AuthCodeSlot, info: &TwitchUserAuthResponse) -> (body:
    String)
    ensures
        final(slot).code == info.code,
        body@ == "You can close this now "@.push('\u{1F389}'),
{
    slot.code = info.code.clone();
    confirmation_body()
}

/// Handles the music-service redirect in the same way.
pub fn handle_spotify_redirect(slot: &mut AuthCodeSlot, info: &SpotifyAuthResponse) -> (body:
    String)
    ensures
        final(slot).code == info.code,
        body@ == "You can close this now "@.push('\u{1F389}'),
{
    slot.code = info.code.clone();
    confirmation_body()
}

} // verus!
