//! Plain data carried to and from the music service. The surrounding
//! binary deserializes the service's JSON into mirror types and converts
//! them into these.

use vstd::prelude::*;
use vstd::string::StringExecFns;

verus! {

/// Query parameters delivered to the music-service OAuth redirect endpoint.
pub struct SpotifyAuthResponse {
    pub code: String,
    pub state: Option<String>,
}

/// A music-service credential. `created_at` is stamped (in unix seconds)
/// when the token is obtained or refreshed; it is absent only on values
/// deserialized from a response that has not been stamped yet.
pub struct SpotifyToken {
    pub access_token: String,
    pub token_type: String,
    pub expires_in: i64,
    pub scope: Option<String>,
    pub refresh_token: Option<String>,
    pub created_at: Option<i64>,
}

impl Clone for SpotifyToken {
    fn clone(&self) -> (r: Self)
        ensures
            r == *self,
    {
        SpotifyToken {
            access_token: self.access_token.clone(),
            token_type: self.token_type.clone(),
            expires_in: self.expires_in,
            scope: match &self.scope {
                Some(s) => Some(s.clone()),
                None => None,
            },
            refresh_token: match &self.refresh_token {
                Some(s) => Some(s.clone()),
                None => None,
            },
            created_at: self.created_at,
        }
    }
}

/// A search response: the track listing.
pub struct SpotifySearchResult {
    pub tracks: SpotifyTrackResults,
}

/// A page of track results.
pub struct SpotifyTrackResults {
    pub total: u64,
    pub items: Vec<SpotifyTrack>,
}

/// One artist of a track.
pub struct SpotifyArtist {
    pub id: String,
    pub name: String,
}

impl Clone for SpotifyArtist {
    fn clone(&self) -> (r: Self)
        ensures
            r == *self,
    {
        SpotifyArtist { id: self.id.clone(), name: self.name.clone() }
    }
}

/// One track in a search result.
pub struct SpotifyTrack {
    pub id: String,
    pub name: String,
    pub duration_ms: u64,
    pub artists: Vec<SpotifyArtist>,
}

/// Two track values that agree on every field (the artist listing compared
/// element-wise).
pub open spec fn same_track(a: SpotifyTrack, b: SpotifyTrack) -> bool {
    &&& a.id == b.id
    &&& a.name == b.name
    &&& a.duration_ms == b.duration_ms
    &&& a.artists@ == b.artists@
}

impl Clone for SpotifyTrack {
    fn clone(&self) -> (r: Self)
        ensures
            same_track(r, *self),
    {
        let mut artists: Vec<SpotifyArtist> = Vec::new();
        let mut i: usize = 0;
        while i < self.artists.len()
            invariant
                i <= self.artists@.len(),
                artists@ == self.artists@.take(i as int),
            decreases self.artists@.len() - i,
        {
            artists.push(self.artists[i].clone());
            proof {
                assert(artists@ =~= self.artists@.take(i + 1));
            }
            i = i + 1;
        }
        proof {
            assert(artists@ =~= self.artists@);
        }
        SpotifyTrack {
            id: self.id.clone(),
            name: self.name.clone(),
            duration_ms: self.duration_ms,
            artists,
        }
    }
}

impl SpotifyTrack {
    /// The display form of a track: its name, a separating dash, and the
    /// name of its first listed artist.
    pub fn display_name(&self) -> (r: String)
        requires
            self.artists@.len() > 0,
        ensures
            r@ == self.name@ + " - "@ + self.artists@[0].name@,
    {
        let r = self.name.clone().concat(" - ").concat(self.artists[0].name.as_str());
        r
    }
}

impl SpotifyTrackResults {
    /// The first track of the page, if the page holds any.
    pub fn first_item(&self) -> (r: Option<SpotifyTrack>)
        ensures
            self.items@.len() == 0 ==> r is None,
            self.items@.len() > 0 ==> (r matches Some(t) && same_track(t, self.items@[0])),
    {
        if self.items.len() == 0 {
            None
        } else {
            Some(self.items[0].clone())
        }
    }
}

impl Default for SpotifyTrackResults {
    /// An empty result page.
    fn default() -> (r: Self)
        ensures
            r.total == 0,
            r.items@.len() == 0,
    {
        Self { total: 0, items: Vec::new() }
    }
}

} // verus!
