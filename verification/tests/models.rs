use audd::json::JsonValue;
use audd::models::{
    flatten_chunk_songs, lis_tn_streaming_url, non_empty, AppleMusicMetadata, DeezerMetadata,
    EnterpriseChunkResult, EnterpriseMatch, NapsterMetadata, RecognitionMatch, RecognitionResult,
    SpotifyMetadata, StreamCallbackMatch, StreamCallbackSong, StreamingProvider,
};

fn st(t: &str) -> JsonValue {
    JsonValue::Str(t.to_string())
}

fn obj(pairs: Vec<(&str, JsonValue)>) -> JsonValue {
    JsonValue::Object(pairs.into_iter().map(|(k, v)| (k.to_string(), v)).collect())
}

fn extras(pairs: Vec<(&str, JsonValue)>) -> Vec<(String, JsonValue)> {
    pairs.into_iter().map(|(k, v)| (k.to_string(), v)).collect()
}

fn song(artist: &str, title: &str, score: i32) -> StreamCallbackSong {
    StreamCallbackSong {
        artist: Some(artist.into()),
        title: Some(title.into()),
        score: Some(score),
        ..Default::default()
    }
}

fn lookup<'a>(urls: &'a [(StreamingProvider, String)], p: StreamingProvider) -> Option<&'a str> {
    urls.iter().find(|(q, _)| *q == p).map(|(_, u)| u.as_str())
}

#[test]
fn recognition_basic() {
    let r = RecognitionResult {
        artist: Some("Tears For Fears".into()),
        title: Some("Everybody Wants To Rule The World".into()),
        timecode: Some("00:56".into()),
        song_link: Some("https://lis.tn/NbkVb".into()),
        ..Default::default()
    };
    assert!(r.is_public_match());
    assert!(!r.is_custom_match());
    assert_eq!(r.thumbnail_url().as_deref(), Some("https://lis.tn/NbkVb?thumb"));
}

#[test]
fn custom_match() {
    let r = RecognitionResult { timecode: Some("01:45".into()), audio_id: Some(146), ..Default::default() };
    assert!(r.is_custom_match());
    assert!(!r.is_public_match());
    assert_eq!(r.thumbnail_url(), None);
}

#[test]
fn match_enum() {
    let r = RecognitionResult { timecode: Some("x".into()), audio_id: Some(1), ..Default::default() };
    match RecognitionMatch::from(r) {
        RecognitionMatch::Custom(_) => {}
        RecognitionMatch::Public(_) => panic!("expected Custom"),
    }
    let r = RecognitionResult { artist: Some("A".into()), ..Default::default() };
    let m = RecognitionMatch::from(r);
    assert!(matches!(m, RecognitionMatch::Public(_)));
    assert_eq!(m.result().artist.as_deref(), Some("A"));
    assert_eq!(m.into_result().artist.as_deref(), Some("A"));
}

#[test]
fn extras_round_trip() {
    let r = RecognitionResult {
        timecode: Some("00:01".into()),
        artist: Some("X".into()),
        extras: extras(vec![("tidal", obj(vec![("id", st("abc"))]))]),
        ..Default::default()
    };
    let tidal = r.extras.iter().find(|(k, _)| k == "tidal").map(|(_, v)| v).unwrap();
    assert_eq!(tidal.get("id").and_then(|v| v.as_str()), Some("abc"));
}

#[test]
fn youtube_link_no_thumb() {
    let r = RecognitionResult {
        timecode: Some("00:01".into()),
        song_link: Some("https://www.youtube.com/watch?v=abc".into()),
        ..Default::default()
    };
    assert_eq!(r.thumbnail_url(), None);
}

#[test]
fn thumb_with_existing_query() {
    let r = RecognitionResult {
        timecode: Some("00:01".into()),
        song_link: Some("https://lis.tn/abc?utm=x".into()),
        ..Default::default()
    };
    assert_eq!(r.thumbnail_url().as_deref(), Some("https://lis.tn/abc?utm=x&thumb"));
}

#[test]
fn lis_tn_link_shapes() {
    assert_eq!(lis_tn_streaming_url(None, "thumb"), None);
    assert_eq!(lis_tn_streaming_url(Some("not a url"), "thumb"), None);
    assert_eq!(lis_tn_streaming_url(Some("https://lis.tn/abc"), "deezer").as_deref(), Some("https://lis.tn/abc?deezer"));
    assert_eq!(lis_tn_streaming_url(Some("https://lis.tn.example.com/abc"), "deezer"), None);
}

#[test]
fn stream_callback_match_deserialize_splits_song_and_alternatives() {
    let object = extras(vec![
        ("radio_id", JsonValue::Int(7)),
        ("timestamp", st("2020-04-13 10:31:43")),
        ("play_length", JsonValue::Int(111)),
        ("results", JsonValue::Array(vec![])),
    ]);
    let m = StreamCallbackMatch::from_wire(object, vec![song("X", "Y", 100), song("X", "Y (Remix)", 95)]);
    assert_eq!(m.radio_id, Some(7));
    assert_eq!(m.timestamp.as_deref(), Some("2020-04-13 10:31:43"));
    assert_eq!(m.play_length, Some(111));
    assert_eq!(m.song.title.as_deref(), Some("Y"));
    assert_eq!(m.alternatives.len(), 1);
    assert_eq!(m.alternatives[0].title.as_deref(), Some("Y (Remix)"));
    assert!(m.extras.is_empty());
}

#[test]
fn stream_callback_match_extras_capture_unknown_keys() {
    let object = extras(vec![
        ("radio_id", JsonValue::Int(1)),
        ("results", JsonValue::Array(vec![])),
        ("futuristic_field", obj(vec![("a", JsonValue::Int(1))])),
    ]);
    let m = StreamCallbackMatch::from_wire(object, vec![song("X", "Y", 100)]);
    let f = m.extras.iter().find(|(k, _)| k == "futuristic_field").map(|(_, v)| v);
    assert_eq!(f.and_then(|v| v.get("a")).and_then(|v| v.as_i64()), Some(1));
    assert_eq!(m.extras.len(), 1);
}

#[test]
fn stream_callback_match_empty_results_parses_to_default_song() {
    let object = extras(vec![("radio_id", JsonValue::Int(1)), ("results", JsonValue::Array(vec![]))]);
    let m = StreamCallbackMatch::from_wire(object, Vec::new());
    assert_eq!(m.radio_id, Some(1));
    assert!(m.song.artist.is_none() && m.song.title.is_none() && m.song.score.is_none());
    assert!(m.song.extras.is_empty());
    assert!(m.alternatives.is_empty());
}

#[test]
fn stream_callback_match_round_trip_serialize() {
    let object = extras(vec![
        ("radio_id", JsonValue::Int(9)),
        ("timestamp", st("2026-05-04 10:31:43")),
        ("play_length", JsonValue::Int(60)),
        ("results", JsonValue::Array(vec![])),
    ]);
    let mut first = song("X", "Y", 100);
    first.song_link = Some("https://lis.tn/abc".into());
    let original = StreamCallbackMatch::from_wire(object, vec![first]);
    let (object, typed, results) = original.into_wire();
    assert_eq!(typed, 3);
    assert_eq!(results.len(), 1);
    let keys: Vec<&str> = object.iter().map(|(k, _)| k.as_str()).collect();
    assert_eq!(keys, vec!["radio_id", "timestamp", "play_length"]);
    let back = StreamCallbackMatch::from_wire(object, results);
    assert_eq!(back.radio_id, Some(9));
    assert_eq!(back.timestamp.as_deref(), Some("2026-05-04 10:31:43"));
    assert_eq!(back.play_length, Some(60));
    assert_eq!(back.song.title.as_deref(), Some("Y"));
    assert_eq!(back.song.song_link.as_deref(), Some("https://lis.tn/abc"));
    assert!(back.alternatives.is_empty());
    assert!(back.extras.is_empty());
}

#[test]
fn wire_round_trip_keeps_extras_and_absent_fields() {
    let m = StreamCallbackMatch {
        radio_id: None,
        timestamp: Some("t".into()),
        play_length: None,
        song: song("A", "B", 1),
        alternatives: vec![song("A", "C", 2), song("A", "D", 3)],
        extras: extras(vec![("futuristic_field", obj(vec![("a", JsonValue::Int(1))])), ("z", st("q"))]),
        raw_response: JsonValue::Null,
    };
    let (object, typed, results) = m.into_wire();
    assert_eq!(typed, 1);
    assert_eq!(object.len(), 3);
    let back = StreamCallbackMatch::from_wire(object, results);
    assert_eq!(back.radio_id, None);
    assert_eq!(back.timestamp.as_deref(), Some("t"));
    assert_eq!(back.play_length, None);
    assert_eq!(back.song.title.as_deref(), Some("B"));
    let alts: Vec<Option<&str>> = back.alternatives.iter().map(|s| s.title.as_deref()).collect();
    assert_eq!(alts, vec![Some("C"), Some("D")]);
    let keys: Vec<&str> = back.extras.iter().map(|(k, _)| k.as_str()).collect();
    assert_eq!(keys, vec!["futuristic_field", "z"]);
}

#[test]
fn enterprise_match_thumb() {
    let m = EnterpriseMatch {
        score: Some(80),
        timecode: Some("00:01".into()),
        song_link: Some("https://lis.tn/abc".into()),
        ..Default::default()
    };
    assert_eq!(m.thumbnail_url().as_deref(), Some("https://lis.tn/abc?thumb"));
    assert_eq!(m.streaming_url(StreamingProvider::Napster).as_deref(), Some("https://lis.tn/abc?napster"));
}

#[test]
fn streaming_url_prefers_direct_apple_music() {
    let r = RecognitionResult {
        timecode: Some("00:01".into()),
        song_link: Some("https://lis.tn/abc".into()),
        apple_music: Some(AppleMusicMetadata {
            url: Some("https://music.apple.com/track/123".into()),
            ..Default::default()
        }),
        ..Default::default()
    };
    assert_eq!(
        r.streaming_url(StreamingProvider::AppleMusic).as_deref(),
        Some("https://music.apple.com/track/123"),
    );
}

#[test]
fn streaming_url_falls_back_to_lis_tn_redirect() {
    let r = RecognitionResult {
        timecode: Some("00:01".into()),
        song_link: Some("https://lis.tn/abc".into()),
        ..Default::default()
    };
    assert_eq!(r.streaming_url(StreamingProvider::Spotify).as_deref(), Some("https://lis.tn/abc?spotify"));
    assert_eq!(r.streaming_url(StreamingProvider::YouTube).as_deref(), Some("https://lis.tn/abc?youtube"));
}

#[test]
fn streaming_url_returns_none_for_youtube_song_link() {
    let r = RecognitionResult {
        timecode: Some("00:01".into()),
        song_link: Some("https://www.youtube.com/watch?v=abc".into()),
        ..Default::default()
    };
    assert_eq!(r.streaming_url(StreamingProvider::Spotify), None);
    assert_eq!(r.streaming_url(StreamingProvider::YouTube), None);
}

#[test]
fn streaming_urls_lists_all_resolvable() {
    let r = RecognitionResult {
        timecode: Some("00:01".into()),
        song_link: Some("https://lis.tn/abc".into()),
        deezer: Some(DeezerMetadata { link: Some("https://deezer.com/track/9".into()), ..Default::default() }),
        ..Default::default()
    };
    let urls = r.streaming_urls();
    assert_eq!(lookup(&urls, StreamingProvider::Deezer), Some("https://deezer.com/track/9"));
    assert_eq!(lookup(&urls, StreamingProvider::Spotify), Some("https://lis.tn/abc?spotify"));
    assert_eq!(urls.len(), 5);
    let order: Vec<StreamingProvider> = urls.iter().map(|(p, _)| *p).collect();
    assert_eq!(order, StreamingProvider::all());
}

#[test]
fn streaming_url_spotify_external_urls_in_extras() {
    let r = RecognitionResult {
        timecode: Some("00:01".into()),
        spotify: Some(SpotifyMetadata {
            id: Some("abc".into()),
            extras: extras(vec![("external_urls", obj(vec![("spotify", st("https://open.spotify.com/track/abc"))]))]),
            ..Default::default()
        }),
        ..Default::default()
    };
    assert_eq!(
        r.streaming_url(StreamingProvider::Spotify).as_deref(),
        Some("https://open.spotify.com/track/abc"),
    );
}

#[test]
fn streaming_url_spotify_uri_and_napster_href() {
    let r = RecognitionResult {
        spotify: Some(SpotifyMetadata { uri: Some("spotify:track:abc".into()), ..Default::default() }),
        napster: Some(NapsterMetadata { extras: extras(vec![("href", st("https://napster/x"))]), ..Default::default() }),
        ..Default::default()
    };
    assert_eq!(r.streaming_url(StreamingProvider::Spotify).as_deref(), Some("spotify:track:abc"));
    assert_eq!(r.streaming_url(StreamingProvider::Napster).as_deref(), Some("https://napster/x"));
    assert_eq!(r.streaming_url(StreamingProvider::YouTube), None);
    assert_eq!(r.streaming_urls().len(), 2);
}

#[test]
fn preview_url_apple_music_first() {
    let r = RecognitionResult {
        timecode: Some("00:01".into()),
        apple_music: Some(AppleMusicMetadata {
            extras: extras(vec![("previews", JsonValue::Array(vec![obj(vec![("url", st("https://itunes/preview.m4a"))])]))]),
            ..Default::default()
        }),
        spotify: Some(SpotifyMetadata {
            extras: extras(vec![("preview_url", st("https://spotify/preview.mp3"))]),
            ..Default::default()
        }),
        ..Default::default()
    };
    assert_eq!(r.preview_url().as_deref(), Some("https://itunes/preview.m4a"));
}

#[test]
fn preview_url_falls_through_to_deezer() {
    let r = RecognitionResult {
        timecode: Some("00:01".into()),
        deezer: Some(DeezerMetadata {
            extras: extras(vec![("preview", st("https://deezer/preview.mp3"))]),
            ..Default::default()
        }),
        ..Default::default()
    };
    assert_eq!(r.preview_url().as_deref(), Some("https://deezer/preview.mp3"));
}

#[test]
fn preview_url_none_when_absent() {
    let r = RecognitionResult { timecode: Some("00:01".into()), ..Default::default() };
    assert_eq!(r.preview_url(), None);
}

#[test]
fn enterprise_match_streaming_urls_lis_tn_only() {
    let m = EnterpriseMatch {
        score: Some(90),
        timecode: Some("00:01".into()),
        song_link: Some("https://lis.tn/abc".into()),
        ..Default::default()
    };
    let urls = m.streaming_urls();
    assert_eq!(urls.len(), 5);
    assert_eq!(lookup(&urls, StreamingProvider::Spotify), Some("https://lis.tn/abc?spotify"));
}

#[test]
fn enterprise_match_streaming_urls_empty_for_youtube() {
    let m = EnterpriseMatch {
        score: Some(90),
        timecode: Some("00:01".into()),
        song_link: Some("https://www.youtube.com/watch?v=x".into()),
        ..Default::default()
    };
    assert!(m.streaming_urls().is_empty());
}

#[test]
fn provider_wire_names() {
    assert_eq!(StreamingProvider::Spotify.as_str(), "spotify");
    assert_eq!(StreamingProvider::AppleMusic.as_str(), "apple_music");
    assert_eq!(StreamingProvider::Deezer.as_str(), "deezer");
    assert_eq!(StreamingProvider::Napster.as_str(), "napster");
    assert_eq!(StreamingProvider::YouTube.as_str(), "youtube");
}

#[test]
fn non_empty_text() {
    assert_eq!(non_empty(Some("")), None);
    assert_eq!(non_empty(None), None);
    assert_eq!(non_empty(Some("a")).as_deref(), Some("a"));
}

#[test]
fn flatten_chunks_in_order() {
    let chunk = |scores: &[i32]| EnterpriseChunkResult {
        songs: scores.iter().map(|s| EnterpriseMatch { score: Some(*s), ..Default::default() }).collect(),
        offset: "00:00".into(),
        extras: Vec::new(),
    };
    let all = flatten_chunk_songs(vec![chunk(&[80]), chunk(&[]), chunk(&[70, 60])]);
    let scores: Vec<Option<i32>> = all.iter().map(|m| m.score).collect();
    assert_eq!(scores, vec![Some(80), Some(70), Some(60)]);
}
