use soundcloud_rs::discovery::{find_client_id, first_client_id, own_scripts, script_urls};
use soundcloud_rs::download::{
    download_method, effective_stream_type, get_transcoding_by_stream_type, hls_ffmpeg_plan,
    join_ids, playlist_dir_name, playlist_track_ids, resolved_stream_url, track_file_name,
    transcoding_url, waveform_url, DownloadMethod,
};
use soundcloud_rs::response::{Format, Media, Playlist, Stream, StreamType, Track, Transcoding};

fn transcoding(url: &str, protocol: Option<StreamType>, snipped: Option<bool>) -> Transcoding {
    Transcoding {
        url: Some(url.to_string()),
        preset: None,
        quality: None,
        snipped,
        format: Some(Format { protocol, mime_type: None }),
    }
}

fn track(title: Option<&str>, transcodings: Option<Vec<Transcoding>>) -> Track {
    Track {
        id: Some(1),
        title: title.map(|t| t.to_string()),
        duration: None,
        permalink_url: None,
        user: None,
        media: Some(Media { transcodings }),
        waveform_url: None,
    }
}

fn track_with_id(id: Option<i64>) -> Track {
    let mut t = track(Some("t"), None);
    t.id = id;
    t
}

#[test]
fn picks_first_full_transcoding_of_protocol() {
    let t = track(
        Some("x"),
        Some(vec![
            transcoding("hls-snip", Some(StreamType::Hls), Some(true)),
            transcoding("prog", Some(StreamType::Progressive), None),
            transcoding("hls-1", Some(StreamType::Hls), Some(false)),
            transcoding("hls-2", Some(StreamType::Hls), None),
        ]),
    );
    let chosen = get_transcoding_by_stream_type(&t, StreamType::Hls).unwrap();
    assert_eq!(chosen.url.as_deref(), Some("hls-1"));
    let chosen = get_transcoding_by_stream_type(&t, StreamType::Progressive).unwrap();
    assert_eq!(chosen.url.as_deref(), Some("prog"));
}

#[test]
fn premium_track_has_only_snippets() {
    let t = track(
        Some("x"),
        Some(vec![
            transcoding("snip", Some(StreamType::Progressive), Some(true)),
            transcoding("hls", Some(StreamType::Hls), None),
        ]),
    );
    let e = get_transcoding_by_stream_type(&t, StreamType::Progressive).unwrap_err();
    assert_eq!(e.message, "Track is a premium Go+ track (only preview snippet is available)");
    assert_eq!(e.status, None);
}

#[test]
fn no_transcoding_of_protocol() {
    let t = track(
        Some("x"),
        Some(vec![
            transcoding("hls", Some(StreamType::Hls), None),
            transcoding("nofmt", None, None),
        ]),
    );
    let e = get_transcoding_by_stream_type(&t, StreamType::Progressive).unwrap_err();
    assert_eq!(e.message, "No available download options");
    let empty = track(Some("x"), Some(vec![]));
    let e = get_transcoding_by_stream_type(&empty, StreamType::Hls).unwrap_err();
    assert_eq!(e.message, "No available download options");
}

#[test]
fn missing_transcodings() {
    let t = track(Some("x"), None);
    let e = get_transcoding_by_stream_type(&t, StreamType::Hls).unwrap_err();
    assert_eq!(e.message, "Missing media transcodings");
    let mut no_media = track(Some("x"), None);
    no_media.media = None;
    let e = get_transcoding_by_stream_type(&no_media, StreamType::Hls).unwrap_err();
    assert_eq!(e.message, "Missing media transcodings");
}

#[test]
fn default_stream_type_is_progressive() {
    assert_eq!(effective_stream_type(None), StreamType::Progressive);
    assert_eq!(effective_stream_type(Some(StreamType::Hls)), StreamType::Hls);
}

#[test]
fn download_methods() {
    let m = download_method(&transcoding("u", Some(StreamType::Progressive), None)).unwrap();
    assert_eq!(m, DownloadMethod::Progressive);
    let m = download_method(&transcoding("u", Some(StreamType::Hls), None)).unwrap();
    assert_eq!(m, DownloadMethod::Hls);
    let e = download_method(&transcoding("u", Some(StreamType::EncryptedHls), None)).unwrap_err();
    assert_eq!(e.message, "Invalid Stream Type");
    let e = download_method(&transcoding("u", None, None)).unwrap_err();
    assert_eq!(e.message, "Missing transcoding format/protocol");
    let mut no_format = transcoding("u", None, None);
    no_format.format = None;
    let e = download_method(&no_format).unwrap_err();
    assert_eq!(e.message, "Missing transcoding format/protocol");
}

#[test]
fn track_file_names() {
    let t = track(Some("Song"), None);
    assert_eq!(track_file_name(&t, None).unwrap(), "Song.mp3");
    assert_eq!(track_file_name(&t, Some("Other")).unwrap(), "Other.mp3");
    let untitled = track(None, None);
    assert_eq!(track_file_name(&untitled, Some("Named")).unwrap(), "Named.mp3");
    let e = track_file_name(&untitled, None).unwrap_err();
    assert_eq!(e.message, "Track title is missing");
}

#[test]
fn playlist_dirs_and_tracks() {
    let p = Playlist {
        id: Some(9),
        title: Some("Mix".to_string()),
        tracks: Some(vec![track_with_id(Some(11)), track_with_id(Some(12)), track_with_id(None), track_with_id(Some(14))]),
    };
    assert_eq!(playlist_dir_name(&p, None).unwrap(), "Mix");
    assert_eq!(playlist_dir_name(&p, Some("Best")).unwrap(), "Best");
    let plan = playlist_track_ids(&p).unwrap();
    assert_eq!(plan.ids, vec![11, 12]);
    assert!(plan.stopped_at_missing_id);
    assert_eq!(plan.outcome().unwrap_err().message, "Missing track id in playlist");

    let complete = Playlist { id: None, title: None, tracks: Some(vec![track_with_id(Some(1)), track_with_id(Some(2))]) };
    let plan = playlist_track_ids(&complete).unwrap();
    assert_eq!(plan.ids, vec![1, 2]);
    assert!(!plan.stopped_at_missing_id);
    assert!(plan.outcome().is_ok());
    let e = playlist_dir_name(&complete, None).unwrap_err();
    assert_eq!(e.message, "Missing playlist title");

    let no_tracks = Playlist { id: None, title: Some("x".to_string()), tracks: None };
    let e = playlist_track_ids(&no_tracks).unwrap_err();
    assert_eq!(e.message, "Missing tracks in playlist");
}

#[test]
fn required_urls() {
    let mut t = track(Some("x"), None);
    assert_eq!(waveform_url(&t).unwrap_err().message, "Missing waveform URL");
    t.waveform_url = Some("https://wave.sndcdn.com/a_m.json".to_string());
    assert_eq!(waveform_url(&t).unwrap(), "https://wave.sndcdn.com/a_m.json");

    let mut tc = transcoding("https://api/media/1/stream/hls", Some(StreamType::Hls), None);
    assert_eq!(transcoding_url(&tc).unwrap(), "https://api/media/1/stream/hls");
    tc.url = None;
    assert_eq!(transcoding_url(&tc).unwrap_err().message, "Missing transcoding URL");

    let s = Stream { url: Some("https://cf-hls-media.sndcdn.com/playlist.m3u8".to_string()) };
    assert_eq!(resolved_stream_url(&s).unwrap(), "https://cf-hls-media.sndcdn.com/playlist.m3u8");
    let s = Stream { url: None };
    assert_eq!(resolved_stream_url(&s).unwrap_err().message, "Missing resolved stream URL");
}

#[test]
fn ids_joined_by_commas() {
    assert_eq!(join_ids(&[]), "");
    assert_eq!(join_ids(&[5]), "5");
    assert_eq!(join_ids(&[1, -2, 300]), "1,-2,300");
}

#[test]
fn script_urls_from_page() {
    let page = r#"<html><script crossorigin src="https://a-v2.sndcdn.com/assets/0-abc.js"></script>
<script src="https://www.google.com/recaptcha/api.js"></script>
<script src="http://a-v2.sndcdn.com/assets/50-def.js"></script></html>"#;
    let urls = script_urls(page);
    assert_eq!(urls, vec![
        "https://a-v2.sndcdn.com/assets/0-abc.js".to_string(),
        "http://a-v2.sndcdn.com/assets/50-def.js".to_string(),
    ]);
    assert!(script_urls("no scripts here").is_empty());
}

#[test]
fn own_scripts_keeps_order() {
    let kept = own_scripts(vec![
        "https://x.com/a.js".to_string(),
        "https://a-v2.sndcdn.com/b.js".to_string(),
        "https://c.sndcdn.com/c.js".to_string(),
    ]);
    assert_eq!(kept, vec!["https://a-v2.sndcdn.com/b.js".to_string(), "https://c.sndcdn.com/c.js".to_string()]);
}

#[test]
fn client_id_in_script() {
    let script = r#"var a={client_id:"AbCdEfGhIjKlMnOpQrStUvWxYz012345",x:1}"#;
    assert_eq!(find_client_id(script).as_deref(), Some("AbCdEfGhIjKlMnOpQrStUvWxYz012345"));
    let script = "?client_id=0123456789abcdef0123456789abcdef&app=1";
    assert_eq!(find_client_id(script).as_deref(), Some("0123456789abcdef0123456789abcdef"));
    assert_eq!(find_client_id("client_id:\"short\""), None);
    assert_eq!(find_client_id(""), None);
}

#[test]
fn first_found_client_id() {
    let id = first_client_id(vec![None, Some("first".to_string()), Some("second".to_string())]).unwrap();
    assert_eq!(id, "first");
    let e = first_client_id(vec![None, None]).unwrap_err();
    assert_eq!(e.message, "Client ID not found");
    assert!(first_client_id(vec![]).is_err());
}

#[test]
fn chosen_transcoding_is_fetched_by_its_stream_type() {
    let t = track(
        Some("x"),
        Some(vec![
            transcoding("p", Some(StreamType::Progressive), None),
            transcoding("h", Some(StreamType::Hls), None),
        ]),
    );
    let p = get_transcoding_by_stream_type(&t, StreamType::Progressive).unwrap();
    assert_eq!(download_method(&p).unwrap(), DownloadMethod::Progressive);
    let h = get_transcoding_by_stream_type(&t, StreamType::Hls).unwrap();
    assert_eq!(download_method(&h).unwrap(), DownloadMethod::Hls);
}

#[test]
fn ffmpeg_arguments_for_hls() {
    let plan = hls_ffmpeg_plan("https://hls/p.m3u8", "out/Song.mp3", Some("socks5://127.0.0.1:9050"));
    assert_eq!(plan.before_input, vec!["-http_proxy".to_string(), "socks5://127.0.0.1:9050".to_string()]);
    assert_eq!(plan.input, "https://hls/p.m3u8");
    assert_eq!(plan.output, "out/Song.mp3");
    assert_eq!(plan.after_output, vec!["-codec:a", "libmp3lame", "-q:a", "2"]);
    let plan = hls_ffmpeg_plan("u", "o.mp3", None);
    assert!(plan.before_input.is_empty());
}
