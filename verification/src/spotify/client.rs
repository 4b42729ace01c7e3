//! Music-service client state: construction from a persisted or freshly
//! exchanged token, the lazy refresh decision, and the exact request
//! strings the surrounding binary sends.

use base64::Engine;
use vstd::prelude::*;
use vstd::string::StringExecFns;
use vstd::utf8::encode_utf8;
use crate::spotify::models::SpotifyToken;
use crate::spotify::models::SpotifyTrack;
use crate::strutil::dec_str;
use crate::strutil::u64_to_string;

verus! {

/// What the base64 standard-alphabet encoding of a byte string is; a
/// function of the bytes alone.
pub uninterp spec fn base64_of(bytes: Seq<u8>) -> Seq<char>;

/// Relies on base64's `Engine::encode` with the `STANDARD` engine: the
/// result is a function of the input bytes alone, four output characters
/// (including padding) for every started group of three input bytes.
#[verifier::external_body]
fn base64_encode(bytes: &[u8]) -> (r: String)
    ensures
        r@ == base64_of(bytes@),
        r@.len() == 4 * ((bytes@.len() + 2) / 3),
{
    base64::engine::general_purpose::STANDARD.encode(bytes)
}

/// The value of the HTTP basic-authorization header for the given client
/// credentials: `Basic` followed by base64 of `id:secret`.
pub fn basic_auth_value(client_id: &str, client_secret: &str) -> (r: String)
    ensures
        r@ == "Basic "@ + base64_of(encode_utf8(client_id@ + ":"@ + client_secret@)),
{
    let creds = client_id.to_owned().concat(":").concat(client_secret);
    let b64 = base64_encode(creds.as_str().as_bytes());
    let r = String::from_str("Basic ").concat(b64.as_str());
    r
}

/// Whether the token must be refreshed at time `now`: its creation stamp
/// plus its lifetime has been reached, or it was never stamped.
pub open spec fn spec_needs_refresh(t: SpotifyToken, now: i64) -> bool {
    match t.created_at {
        None => true,
        Some(ca) => ca + t.expires_in <= now,
    }
}

/// The client of the music service: the application credentials and the
/// current token, if one has been obtained.
pub struct SpotifyClient {
    pub client_id: String,
    pub client_secret: String,
    pub token: Option<SpotifyToken>,
}

/// `t` restamped as created at `now`.
pub open spec fn restamped(t: SpotifyToken, now: i64) -> SpotifyToken {
    SpotifyToken { created_at: Some(now), ..t }
}

impl SpotifyClient {
    /// A client whose token was loaded from persisted state, kept exactly
    /// as it was persisted.
    pub fn from_persisted(client_id: String, client_secret: String, token: SpotifyToken) -> (r:
        Self)
        ensures
            r.client_id == client_id,
            r.client_secret == client_secret,
            r.token == Some(token),
    {
        SpotifyClient { client_id, client_secret, token: Some(token) }
    }

    /// A client whose token was just obtained from the token endpoint,
    /// stamped as created at `now`.
    pub fn from_exchange(client_id: String, client_secret: String, token: SpotifyToken, now: i64)
        -> (r: Self)
        ensures
            r.client_id == client_id,
            r.client_secret == client_secret,
            r.token == Some(restamped(token, now)),
    {
        let mut token = token;
        token.created_at = Some(now);
        SpotifyClient { client_id, client_secret, token: Some(token) }
    }

    /// Decides, before an action that needs the credential, whether the
    /// token's lifetime has run out at time `now`.
    pub fn needs_refresh(&self, now: i64) -> (b: bool)
        requires
            self.token is Some,
        ensures
            b == spec_needs_refresh(self.token->0, now),
    {
        match &self.token {
            None => true,
            Some(t) => match t.created_at {
                None => true,
                Some(ca) => (ca as i128) + (t.expires_in as i128) <= (now as i128),
            },
        }
    }

    /// Takes the outcome of a refresh attempt: a fresh token replaces the
    /// current one, stamped as created at `now`; a failed attempt leaves
    /// the stale token in place to be used as-is (refresh failures in
    /// steady state are soft).
    pub fn absorb_refresh_result(&mut self, result: Option<SpotifyToken>, now: i64)
        ensures
            final(self).client_id == old(self).client_id,
            final(self).client_secret == old(self).client_secret,
            match result {
                Some(t) => final(self).token == Some(restamped(t, now)),
                None => final(self).token == old(self).token,
            },
    {
        match result {
            Some(t) => {
                let mut t = t;
                t.created_at = Some(now);
                self.token = Some(t);
            },
            None => {},
        }
    }

    /// The refresh-grant request URL for this client's stored token.
    pub fn refresh_url(&self) -> (r: String)
        requires
            self.token is Some,
            self.token->0.refresh_token is Some,
        ensures
            r@ == "https://accounts.spotify.com/api/token?grant_type=refresh_token&client_id="@
                + self.client_id@ + "&refresh_token="@ + match self.token->0.refresh_token {
                Some(rt) => rt@,
                None => Seq::<char>::empty(),
            },
    {
        let mut r = String::from_str(
            "https://accounts.spotify.com/api/token?grant_type=refresh_token&client_id=",
        );
        r.append(self.client_id.as_str());
        r.append("&refresh_token=");
        match &self.token {
            Some(t) => match &t.refresh_token {
                Some(rt) => r.append(rt.as_str()),
                None => {},
            },
            None => {},
        }
        r
    }
}

/// The track-search request URL for a raw query.
pub fn search_url(query: &str) -> (r: String)
    ensures
        r@ == "https://api.spotify.com/v1/search?q="@ + query@ + "&type=track"@,
{
    let r = String::from_str("https://api.spotify.com/v1/search?q=").concat(query).concat(
        "&type=track",
    );
    r
}

/// The queue request URL for a track.
pub fn queue_url(track: &SpotifyTrack) -> (r: String)
    ensures
        r@ == "https://api.spotify.com/v1/me/player/queue?uri=spotify:track:"@ + track.id@,
{
    let r = String::from_str("https://api.spotify.com/v1/me/player/queue?uri=spotify:track:")
        .concat(track.id.as_str());
    r
}

/// The redirect target announced in the authorization-code exchange with
/// the music service.
pub fn spotify_redirect_uri(port: u16) -> (r: String)
    ensures
        r@ == "http://localhost:"@ + dec_str(port as nat) + "/spotify-auth"@,
{
    let r = String::from_str("http://localhost:").concat(u64_to_string(port as u64).as_str())
        .concat("/spotify-auth");
    r
}

} // verus!
