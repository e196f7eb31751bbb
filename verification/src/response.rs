//! The resources that the API answers with, holding what the client reads.

use vstd::prelude::*;

verus! {

/// A page of a listing, with the link to the next page when there is one.
#[derive(Debug, Clone)]
pub struct PagingCollection<T> {
    /// The items of this page.
    pub collection: Vec<T>,
    /// The URL of the next page.
    pub next_href: Option<String>,
}

/// A resource that a permalink URL resolves to.
#[derive(Debug, Clone)]
pub enum ResolvedResource {
    /// A user profile.
    User(User),
    /// A playlist or album.
    Playlist(Playlist),
    /// A track.
    Track(Track),
}

/// A user profile.
#[derive(Debug, Clone)]
pub struct User {
    /// The numeric id of the user.
    pub id: Option<i64>,
    /// The display name.
    pub username: Option<String>,
    /// The profile's web address.
    pub permalink_url: Option<String>,
}

/// The protocol by which a transcoding is streamed.
#[derive(Debug, Clone, Copy, PartialEq, Eq, Structural)]
pub enum StreamType {
    /// One file, fetched in one request.
    Progressive,
    /// An HLS playlist of segments.
    Hls,
    /// An HLS playlist of encrypted segments.
    EncryptedHls,
    /// An HLS playlist of segments encrypted in CTR mode.
    CtrEncryptedHls,
    /// An HLS playlist of segments encrypted in CBC mode.
    CbcEncryptedHls,
}

/// The format of a transcoding.
#[derive(Debug, Clone)]
pub struct Format {
    /// How the transcoding is streamed.
    pub protocol: Option<StreamType>,
    /// The MIME type of the audio.
    pub mime_type: Option<String>,
}

/// One encoding in which a track can be streamed.
#[derive(Debug, Clone)]
pub struct Transcoding {
    /// The API URL that resolves to the stream URL.
    pub url: Option<String>,
    /// The encoding preset, such as `mp3_0_0`.
    pub preset: Option<String>,
    /// The quality, such as `sq`.
    pub quality: Option<String>,
    /// Whether only a preview snippet can be streamed.
    pub snipped: Option<bool>,
    /// The format.
    pub format: Option<Format>,
}

/// The media of a track.
#[derive(Debug, Clone)]
pub struct Media {
    /// The encodings in which the track can be streamed.
    pub transcodings: Option<Vec<Transcoding>>,
}

/// A track.
#[derive(Debug, Clone)]
pub struct Track {
    /// The numeric id of the track.
    pub id: Option<i64>,
    /// The title.
    pub title: Option<String>,
    /// The duration in milliseconds.
    pub duration: Option<i64>,
    /// The track's web address.
    pub permalink_url: Option<String>,
    /// The uploader.
    pub user: Option<User>,
    /// The streamable media.
    pub media: Option<Media>,
    /// The URL of the waveform data.
    pub waveform_url: Option<String>,
}

/// A playlist or album.
#[derive(Debug, Clone)]
pub struct Playlist {
    /// The numeric id of the playlist.
    pub id: Option<i64>,
    /// The title.
    pub title: Option<String>,
    /// The tracks, in order.
    pub tracks: Option<Vec<Track>>,
}

/// The answer to a transcoding URL: where the audio can be fetched.
#[derive(Debug, Clone)]
pub struct Stream {
    /// The stream URL.
    pub url: Option<String>,
}

/// The waveform of a track.
#[derive(Debug, Clone)]
pub struct Waveform {
    /// The number of samples across.
    pub width: Option<u32>,
    /// The largest sample value.
    pub height: Option<u32>,
    /// The samples.
    pub samples: Option<Vec<u32>>,
}

/// A page of tracks.
pub type Tracks = PagingCollection<Track>;

/// A page of playlists.
pub type Playlists = PagingCollection<Playlist>;

/// A page of users.
pub type Users = PagingCollection<User>;

/// A copy of an optional string.
pub fn clone_opt_string(o: &Option<String>) -> (r: Option<String>)
    ensures
        r == *o,
{
    match o {
        Some(s) => Some(s.clone()),
        None => None,
    }
}

impl Format {
    /// A copy of the format.
    pub fn duplicate(&self) -> (r: Format)
        ensures
            r == *self,
    {
        Format { protocol: self.protocol, mime_type: clone_opt_string(&self.mime_type) }
    }
}

impl Transcoding {
    /// A copy of the transcoding.
    pub fn duplicate(&self) -> (r: Transcoding)
        ensures
            r == *self,
    {
        Transcoding {
            url: clone_opt_string(&self.url),
            preset: clone_opt_string(&self.preset),
            quality: clone_opt_string(&self.quality),
            snipped: self.snipped,
            format: match &self.format {
                Some(f) => Some(f.duplicate()),
                None => None,
            },
        }
    }
}

} // verus!
