//! The consent URLs the surrounding binary opens in a browser when no
//! persisted token short-circuits the flow.

use vstd::prelude::*;
use vstd::string::StringExecFns;
use crate::strutil::dec_str;
use crate::strutil::replace_all;
use crate::strutil::spec_replace_all;
use crate::strutil::u64_to_string;

verus! {

/// The chat-identity consent URL: the requested chat scopes are joined
/// with `+` and their colons percent-encoded.
pub fn twitch_authorize_url(client_id: &str, port: u16) -> (r: String)
    ensures
        r@ == "https://id.twitch.tv/oauth2/authorize?response_type=code&client_id="@ + client_id@
            + "&redirect_uri=http://localhost:"@ + dec_str(port as nat) + "/auth&scope="@
            + spec_replace_all("chat:edit+chat:read"@, ":"@, "%3A"@),
{
    let scopes = replace_all("chat:edit+chat:read", ":", "%3A");
    let mut r = String::from_str(
        "https://id.twitch.tv/oauth2/authorize?response_type=code&client_id=",
    );
    r.append(client_id);
    r.append("&redirect_uri=http://localhost:");
    r.append(u64_to_string(port as u64).as_str());
    r.append("/auth&scope=");
    r.append(scopes.as_str());
    r
}

/// The music-service consent URL with its playback scopes.
pub fn spotify_authorize_url(client_id: &str, port: u16) -> (r: String)
    ensures
        r@ == "https://accounts.spotify.com/authorize?response_type=code&client_id="@ + client_id@
            + "&redirect_uri=http://localhost:"@ + dec_str(port as nat)
            + "/spotify-auth&scope=user-modify-playback-state user-read-playback-state"@,
{
    let mut r = String::from_str(
        "https://accounts.spotify.com/authorize?response_type=code&client_id=",
    );
    r.append(client_id);
    r.append("&redirect_uri=http://localhost:");
    r.append(u64_to_string(port as u64).as_str());
    r.append("/spotify-auth&scope=user-modify-playback-state user-read-playback-state");
    r
}

} // verus!
