//! Identifiers of SoundCloud resources and the API paths built from them.

use vstd::prelude::*;
use crate::text::{int_text, push_int_text};

verus! {

/// A resource is named either by its numeric id or by its URN.
#[derive(Debug, Clone)]
pub enum Identifier {
    /// A numeric id, such as `123456789`.
    Id(i64),
    /// A URN, such as `soundcloud:tracks:123456789`.
    Urn(String),
}

impl Identifier {
    /// How the identifier is written in a path: the id in decimal, or the URN as it is.
    pub open spec fn text(&self) -> Seq<char> {
        match self {
            Identifier::Id(n) => int_text(*n as int),
            Identifier::Urn(s) => s@,
        }
    }

    /// Appends the identifier, as written in a path, to `s`.
    pub fn push_to(&self, s: &mut String)
        ensures
            final(s)@ == old(s)@ + self.text(),
    {
        match self {
            Identifier::Id(n) => push_int_text(s, *n),
            Identifier::Urn(urn) => s.append(urn.as_str()),
        }
    }

    /// The identifier as written in a path.
    pub fn to_string(&self) -> (s: String)
        ensures
            s@ == self.text(),
    {
        let mut s = String::new();
        self.push_to(&mut s);
        assert(s@ =~= self.text());
        s
    }
}

/// `prefix`, then the identifier, then `suffix`.
fn resource_path(prefix: &str, identifier: &Identifier, suffix: &str) -> (p: String)
    ensures
        p@ == prefix@ + identifier.text() + suffix@,
{
    let mut p = prefix.to_string();
    identifier.push_to(&mut p);
    p.append(suffix);
    p
}

/// The API path of a track: `tracks/{identifier}`.
pub fn track_path(identifier: &Identifier) -> (p: String)
    ensures
        p@ == "tracks/"@ + identifier.text(),
{
    let p = resource_path("tracks/", identifier, "");
    proof {
        reveal_strlit("");
        assert(p@ =~= "tracks/"@ + identifier.text());
    }
    p
}

/// The API path of the tracks related to a track: `tracks/{identifier}/related`.
pub fn track_related_path(identifier: &Identifier) -> (p: String)
    ensures
        p@ == "tracks/"@ + identifier.text() + "/related"@,
{
    resource_path("tracks/", identifier, "/related")
}

/// The API path of a playlist: `playlists/{identifier}`.
pub fn playlist_path(identifier: &Identifier) -> (p: String)
    ensures
        p@ == "playlists/"@ + identifier.text(),
{
    let p = resource_path("playlists/", identifier, "");
    proof {
        reveal_strlit("");
        assert(p@ =~= "playlists/"@ + identifier.text());
    }
    p
}

/// The API path of the users who reposted a playlist: `playlists/{identifier}/reposters`.
pub fn playlist_reposters_path(identifier: &Identifier) -> (p: String)
    ensures
        p@ == "playlists/"@ + identifier.text() + "/reposters"@,
{
    resource_path("playlists/", identifier, "/reposters")
}

/// The API path of a user: `users/{identifier}`.
pub fn user_path(identifier: &Identifier) -> (p: String)
    ensures
        p@ == "users/"@ + identifier.text(),
{
    let p = resource_path("users/", identifier, "");
    proof {
        reveal_strlit("");
        assert(p@ =~= "users/"@ + identifier.text());
    }
    p
}

/// The API path of a user's tracks: `users/{identifier}/tracks`.
pub fn user_tracks_path(identifier: &Identifier) -> (p: String)
    ensures
        p@ == "users/"@ + identifier.text() + "/tracks"@,
{
    resource_path("users/", identifier, "/tracks")
}

/// The API path of a user's playlists: `users/{identifier}/playlists`.
pub fn user_playlists_path(identifier: &Identifier) -> (p: String)
    ensures
        p@ == "users/"@ + identifier.text() + "/playlists"@,
{
    resource_path("users/", identifier, "/playlists")
}

/// The API path of a user's followers: `users/{identifier}/followers`.
pub fn user_followers_path(identifier: &Identifier) -> (p: String)
    ensures
        p@ == "users/"@ + identifier.text() + "/followers"@,
{
    resource_path("users/", identifier, "/followers")
}

} // verus!
