//! Planning of downloads: which transcoding of a track is streamed, how it is
//! fetched, how the file is named, which tracks of a playlist are fetched,
//! and the arguments FFmpeg gets for an HLS download.

use vstd::prelude::*;
use crate::error::Error;
use crate::response::{Playlist, Stream, StreamType, Track, Transcoding};
use crate::text::{push_int_text, int_text};
use crate::discovery::texts;
use crate::builder::opt_text;

verus! {

/// `e` carries exactly the message `msg` and no status code.
pub open spec fn is_error(e: Error, msg: Seq<char>) -> bool {
    e.message@ == msg && e.status is None
}

/// The view of an optional string slice as optional text.
pub open spec fn opt_str(o: Option<&str>) -> Option<Seq<char>> {
    match o {
        Some(s) => Some(s@),
        None => None,
    }
}

/// The transcodings of a track, when its media lists them.
pub open spec fn track_transcodings(track: Track) -> Option<Seq<Transcoding>> {
    match track.media {
        Some(m) => match m.transcodings {
            Some(v) => Some(v@),
            None => None,
        },
        None => None,
    }
}

/// The protocol of a transcoding, when its format names one.
pub open spec fn transcoding_protocol(t: Transcoding) -> Option<StreamType> {
    match t.format {
        Some(f) => f.protocol,
        None => None,
    }
}

/// The transcoding is streamed with protocol `st`.
pub open spec fn offers(t: Transcoding, st: StreamType) -> bool {
    transcoding_protocol(t) == Some(st)
}

/// Only a preview snippet of the transcoding can be streamed.
pub open spec fn is_snipped(t: Transcoding) -> bool {
    t.snipped == Some(true)
}

/// The transcoding is streamed with protocol `st` in full.
pub open spec fn playable(t: Transcoding, st: StreamType) -> bool {
    offers(t, st) && !is_snipped(t)
}

/// `t` is the first transcoding in `ts` that is playable with protocol `st`.
pub open spec fn is_first_playable(ts: Seq<Transcoding>, st: StreamType, t: Transcoding) -> bool {
    exists|i: int|
        0 <= i < ts.len() && t == ts[i] && #[trigger] playable(ts[i], st)
            && forall|j: int| 0 <= j < i ==> !playable(#[trigger] ts[j], st)
}

/// No transcoding in `ts` is playable with protocol `st`, and `e` says why:
/// only preview snippets have that protocol, or none has.
pub open spec fn no_playable_error(ts: Seq<Transcoding>, st: StreamType, e: Error) -> bool {
    &&& forall|i: int| 0 <= i < ts.len() ==> !playable(#[trigger] ts[i], st)
    &&& if exists|i: int| 0 <= i < ts.len() && #[trigger] offers(ts[i], st) {
        is_error(e, "Track is a premium Go+ track (only preview snippet is available)"@)
    } else {
        is_error(e, "No available download options"@)
    }
}

/// The stream type asked for, progressive when none is given.
pub fn effective_stream_type(stream_type: Option<StreamType>) -> (st: StreamType)
    ensures
        st == (match stream_type {
            Some(s) => s,
            None => StreamType::Progressive,
        }),
{
    match stream_type {
        Some(s) => s,
        None => StreamType::Progressive,
    }
}

fn protocol_of(t: &Transcoding) -> (p: Option<StreamType>)
    ensures
        p == transcoding_protocol(*t),
{
    match &t.format {
        Some(f) => f.protocol,
        None => None,
    }
}

/// The first transcoding of `track` that streams the whole track with
/// protocol `stream_type`.
///
/// Fails with "Missing media transcodings" when the track lists none; with
/// the Go+ message when every transcoding of that protocol is a preview
/// snippet; and with "No available download options" when none has that
/// protocol.
pub fn get_transcoding_by_stream_type(track: &Track, stream_type: StreamType) -> (r: Result<Transcoding, Error>)
    ensures
        match track_transcodings(*track) {
            None => match r {
                Ok(_) => false,
                Err(e) => is_error(e, "Missing media transcodings"@),
            },
            Some(ts) => match r {
                Ok(t) => is_first_playable(ts, stream_type, t),
                Err(e) => no_playable_error(ts, stream_type, e),
            },
        },
{
    let transcodings = match &track.media {
        Some(m) => match &m.transcodings {
            Some(v) => v,
            None => {
                return Err(Error::new("Missing media transcodings"));
            },
        },
        None => {
            return Err(Error::new("Missing media transcodings"));
        },
    };
    let ghost ts = transcodings@;
    assert(track_transcodings(*track) == Some(ts));
    let n = transcodings.len();
    let mut snipped_seen = false;
    let mut i: usize = 0;
    while i < n
        invariant
            n == ts.len(),
            ts == transcodings@,
            track_transcodings(*track) == Some(ts),
            i <= n,
            forall|j: int| 0 <= j < i ==> !playable(#[trigger] ts[j], stream_type),
            snipped_seen == exists|j: int| 0 <= j < i && #[trigger] offers(ts[j], stream_type),
        decreases n - i,
    {
        let t = &transcodings[i];
        let matches = match protocol_of(t) {
            Some(p) => p == stream_type,
            None => false,
        };
        if matches {
            let snipped = match t.snipped {
                Some(b) => b,
                None => false,
            };
            if !snipped {
                let chosen = t.duplicate();
                assert(playable(ts[i as int], stream_type));
                assert(chosen == ts[i as int]);
                assert(is_first_playable(ts, stream_type, chosen));
                return Ok(chosen);
            }
            assert(offers(ts[i as int], stream_type));
            snipped_seen = true;
        }
        i = i + 1;
    }
    if snipped_seen {
        let e = Error::new("Track is a premium Go+ track (only preview snippet is available)");
        assert(no_playable_error(ts, stream_type, e));
        Err(e)
    } else {
        Err(Error::new("No available download options"))
    }
}

/// How a resolved stream is fetched.
#[derive(Debug, Clone, Copy, PartialEq, Eq, Structural)]
pub enum DownloadMethod {
    /// One request for the whole file.
    Progressive,
    /// FFmpeg reads the HLS playlist and writes an MP3 file.
    Hls,
}

/// How the stream of `transcoding` is fetched, by its protocol.
///
/// Fails with "Missing transcoding format/protocol" when the transcoding
/// names no protocol, and with "Invalid Stream Type" for an encrypted HLS one.
pub fn download_method(transcoding: &Transcoding) -> (r: Result<DownloadMethod, Error>)
    ensures
        match transcoding_protocol(*transcoding) {
            None => match r {
                Ok(_) => false,
                Err(e) => is_error(e, "Missing transcoding format/protocol"@),
            },
            Some(StreamType::Progressive) => r == Ok::<DownloadMethod, Error>(DownloadMethod::Progressive),
            Some(StreamType::Hls) => r == Ok::<DownloadMethod, Error>(DownloadMethod::Hls),
            Some(_) => match r {
                Ok(_) => false,
                Err(e) => is_error(e, "Invalid Stream Type"@),
            },
        },
{
    match protocol_of(transcoding) {
        None => Err(Error::new("Missing transcoding format/protocol")),
        Some(StreamType::Progressive) => Ok(DownloadMethod::Progressive),
        Some(StreamType::Hls) => Ok(DownloadMethod::Hls),
        Some(_) => Err(Error::new("Invalid Stream Type")),
    }
}

/// A transcoding chosen for a stream type has that stream type as its
/// protocol, so `download_method` fetches it by that method and never finds
/// its protocol missing.
pub proof fn lemma_chosen_transcoding_method(t: Transcoding, st: StreamType)
    requires
        playable(t, st),
    ensures
        transcoding_protocol(t) == Some(st),
{
}

/// The title used for a download: the given name, else the resource's title.
pub open spec fn chosen_title(name: Option<Seq<char>>, title: Option<Seq<char>>) -> Option<Seq<char>> {
    match name {
        Some(n) => Some(n),
        None => title,
    }
}

/// The file that a track is downloaded to, within the destination
/// directory: `{title}.mp3`, where the title is `filename` or else the
/// track's title.
///
/// Fails with "Track title is missing" when there is neither.
pub fn track_file_name(track: &Track, filename: Option<&str>) -> (r: Result<String, Error>)
    ensures
        match chosen_title(opt_str(filename), opt_text(track.title)) {
            None => match r {
                Ok(_) => false,
                Err(e) => is_error(e, "Track title is missing"@),
            },
            Some(title) => match r {
                Ok(p) => p@ == title + ".mp3"@,
                Err(_) => false,
            },
        },
{
    let mut file = match filename {
        Some(f) => f.to_string(),
        None => match &track.title {
            Some(t) => t.clone(),
            None => {
                return Err(Error::new("Track title is missing"));
            },
        },
    };
    file.append(".mp3");
    Ok(file)
}

/// The directory that a playlist is downloaded into, within the destination
/// directory: the playlist's name, `playlist_name` or else its title.
///
/// Fails with "Missing playlist title" when there is no name.
pub fn playlist_dir_name(playlist: &Playlist, playlist_name: Option<&str>) -> (r: Result<String, Error>)
    ensures
        match chosen_title(opt_str(playlist_name), opt_text(playlist.title)) {
            None => match r {
                Ok(_) => false,
                Err(e) => is_error(e, "Missing playlist title"@),
            },
            Some(title) => match r {
                Ok(p) => p@ == title,
                Err(_) => false,
            },
        },
{
    match playlist_name {
        Some(n) => Ok(n.to_string()),
        None => match &playlist.title {
            Some(t) => Ok(t.clone()),
            None => Err(Error::new("Missing playlist title")),
        },
    }
}

/// The tracks of a playlist that are downloaded, in order.
#[derive(Debug)]
pub struct PlaylistTracks {
    /// The ids of the leading tracks that have one.
    pub ids: Vec<i64>,
    /// The track after those has no id: the download stops there with an error.
    pub stopped_at_missing_id: bool,
}

impl PlaylistTracks {
    /// How the download of the playlist ends once the listed tracks were
    /// fetched: with "Missing track id in playlist" when a track without an
    /// id stopped it, else successfully.
    pub fn outcome(&self) -> (r: Result<(), Error>)
        ensures
            match r {
                Ok(_) => !self.stopped_at_missing_id,
                Err(e) => self.stopped_at_missing_id && is_error(e, "Missing track id in playlist"@),
            },
    {
        if self.stopped_at_missing_id {
            Err(Error::new("Missing track id in playlist"))
        } else {
            Ok(())
        }
    }
}

/// The ids of the playlist's tracks up to the first track without one, and
/// whether such a track stops the download.
///
/// Fails with "Missing tracks in playlist" when the playlist lists no tracks.
pub fn playlist_track_ids(playlist: &Playlist) -> (r: Result<PlaylistTracks, Error>)
    ensures
        match playlist.tracks {
            None => match r {
                Ok(_) => false,
                Err(e) => is_error(e, "Missing tracks in playlist"@),
            },
            Some(tracks) => match r {
                Err(_) => false,
                Ok(plan) => {
                    &&& plan.ids@.len() <= tracks@.len()
                    &&& forall|i: int| 0 <= i < plan.ids@.len() ==> tracks@[i].id == Some(#[trigger] plan.ids@[i])
                    &&& plan.stopped_at_missing_id == (plan.ids@.len() < tracks@.len())
                    &&& plan.stopped_at_missing_id ==> tracks@[plan.ids@.len() as int].id is None
                },
            },
        },
{
    let tracks = match &playlist.tracks {
        Some(v) => v,
        None => {
            return Err(Error::new("Missing tracks in playlist"));
        },
    };
    let n = tracks.len();
    let mut ids: Vec<i64> = Vec::new();
    let mut i: usize = 0;
    while i < n
        invariant
            n == tracks@.len(),
            playlist.tracks == Some(*tracks),
            i <= n,
            ids@.len() == i,
            forall|j: int| 0 <= j < i ==> tracks@[j].id == Some(#[trigger] ids@[j]),
        decreases n - i,
    {
        match tracks[i].id {
            Some(id) => {
                ids.push(id);
            },
            None => {
                return Ok(PlaylistTracks { ids, stopped_at_missing_id: true });
            },
        }
        i = i + 1;
    }
    Ok(PlaylistTracks { ids, stopped_at_missing_id: false })
}

/// The waveform URL of a track; fails with "Missing waveform URL".
pub fn waveform_url(track: &Track) -> (r: Result<String, Error>)
    ensures
        match track.waveform_url {
            Some(u) => r == Ok::<String, Error>(u),
            None => match r {
                Ok(_) => false,
                Err(e) => is_error(e, "Missing waveform URL"@),
            },
        },
{
    match &track.waveform_url {
        Some(u) => Ok(u.clone()),
        None => Err(Error::new("Missing waveform URL")),
    }
}

/// The API URL of a transcoding; fails with "Missing transcoding URL".
pub fn transcoding_url(transcoding: &Transcoding) -> (r: Result<String, Error>)
    ensures
        match transcoding.url {
            Some(u) => r == Ok::<String, Error>(u),
            None => match r {
                Ok(_) => false,
                Err(e) => is_error(e, "Missing transcoding URL"@),
            },
        },
{
    match &transcoding.url {
        Some(u) => Ok(u.clone()),
        None => Err(Error::new("Missing transcoding URL")),
    }
}

/// The URL of a resolved stream; fails with "Missing resolved stream URL".
pub fn resolved_stream_url(stream: &Stream) -> (r: Result<String, Error>)
    ensures
        match stream.url {
            Some(u) => r == Ok::<String, Error>(u),
            None => match r {
                Ok(_) => false,
                Err(e) => is_error(e, "Missing resolved stream URL"@),
            },
        },
{
    match &stream.url {
        Some(u) => Ok(u.clone()),
        None => Err(Error::new("Missing resolved stream URL")),
    }
}

/// The arguments of the FFmpeg run that turns an HLS stream into an MP3 file.
#[derive(Debug)]
pub struct FfmpegPlan {
    /// The options before the input.
    pub before_input: Vec<String>,
    /// The input: the HLS playlist URL.
    pub input: String,
    /// The output: the MP3 file.
    pub output: String,
    /// The options after the output.
    pub after_output: Vec<String>,
}

/// The FFmpeg arguments that download the HLS stream at `stream_url` into
/// the MP3 file `output`, through `proxy_url` when one is set: the proxy
/// option first, then the input and output, then LAME encoding at VBR
/// quality 2.
pub fn hls_ffmpeg_plan(stream_url: &str, output: &str, proxy_url: Option<&str>) -> (p: FfmpegPlan)
    ensures
        texts(p.before_input@) == (match proxy_url {
            Some(proxy) => seq!["-http_proxy"@, proxy@],
            None => Seq::<Seq<char>>::empty(),
        }),
        p.input@ == stream_url@,
        p.output@ == output@,
        texts(p.after_output@) == seq!["-codec:a"@, "libmp3lame"@, "-q:a"@, "2"@],
{
    let mut before_input: Vec<String> = Vec::new();
    match proxy_url {
        Some(proxy) => {
            before_input.push("-http_proxy".to_string());
            before_input.push(proxy.to_string());
        },
        None => {},
    }
    let mut after_output: Vec<String> = Vec::new();
    after_output.push("-codec:a".to_string());
    after_output.push("libmp3lame".to_string());
    after_output.push("-q:a".to_string());
    after_output.push("2".to_string());
    proof {
        assert(texts(before_input@) =~= (match proxy_url {
            Some(proxy) => seq!["-http_proxy"@, proxy@],
            None => Seq::<Seq<char>>::empty(),
        }));
        assert(texts(after_output@) =~= seq!["-codec:a"@, "libmp3lame"@, "-q:a"@, "2"@]);
    }
    FfmpegPlan { before_input, input: stream_url.to_string(), output: output.to_string(), after_output }
}

/// The ids written in decimal and separated by commas.
pub open spec fn ids_text(ids: Seq<i64>) -> Seq<char>
    decreases ids.len(),
{
    if ids.len() == 0 {
        Seq::empty()
    } else if ids.len() == 1 {
        int_text(ids[0] as int)
    } else {
        ids_text(ids.drop_last()) + seq![','] + int_text(ids.last() as int)
    }
}

/// Every id is in the parameter, in order: no ids give the empty text, and
/// one id more appends a comma (unless it is the first) and its decimal text.
pub proof fn lemma_ids_text_push(ids: Seq<i64>, x: i64)
    ensures
        ids_text(Seq::<i64>::empty()) == Seq::<char>::empty(),
        ids_text(ids.push(x)) == ids_text(ids) + (if ids.len() > 0 { seq![','] } else { Seq::<char>::empty() }) + int_text(x as int),
{
    let next = ids.push(x);
    assert(next.drop_last() =~= ids);
    if ids.len() == 0 {
        assert(ids_text(ids) =~= Seq::<char>::empty());
        assert(next[0] == x);
        assert(ids_text(next) =~= ids_text(ids) + Seq::<char>::empty() + int_text(x as int));
    }
}

/// The parameter for two runs of ids, one after the other, is the
/// parameter for the first run, a comma, and the parameter for the second.
pub proof fn lemma_ids_text_concat(a: Seq<i64>, b: Seq<i64>)
    requires
        a.len() > 0,
        b.len() > 0,
    ensures
        ids_text(a + b) == ids_text(a) + seq![','] + ids_text(b),
    decreases b.len(),
{
    if b.len() == 1 {
        assert(a + b =~= a.push(b[0]));
        lemma_ids_text_push(a, b[0]);
    } else {
        lemma_ids_text_concat(a, b.drop_last());
        assert((a + b).drop_last() =~= a + b.drop_last());
        assert((a + b).last() == b.last());
        assert(ids_text(a + b) =~= ids_text(a) + seq![','] + ids_text(b));
    }
}

/// The value of the `ids` parameter that fetches several tracks at once.
pub fn join_ids(ids: &[i64]) -> (s: String)
    ensures
        s@ == ids_text(ids@),
{
    let mut s = String::new();
    let n = ids.len();
    let mut i: usize = 0;
    while i < n
        invariant
            n == ids@.len(),
            i <= n,
            s@ == ids_text(ids@.take(i as int)),
        decreases n - i,
    {
        if i > 0 {
            s.append(",");
        }
        push_int_text(&mut s, ids[i]);
        proof {
            reveal_strlit(",");
            let next = ids@.take(i + 1);
            assert(next.drop_last() =~= ids@.take(i as int));
            assert(s@ =~= ids_text(next));
        }
        i = i + 1;
    }
    assert(ids@.take(n as int) =~= ids@);
    s
}

} // verus!
