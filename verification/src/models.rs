//! Typed recognition, enterprise, stream and callback models, and the helpers
//! that read streaming, cover-art and preview links out of them.

use vstd::prelude::*;

use crate::errors::{field_of, str_of};
use crate::json::{
    entry_get, json_entries_view, lookup, opt_string_view, opt_view, Json, JsonValue,
};
use crate::text::{push_char, push_str, str_eq, string_of};
use crate::urls::{parse_url, parsed_url};

verus! {

/// Streaming providers reachable via the `lis.tn` redirect helper.
#[derive(Debug, Clone, Copy, PartialEq, Eq, Hash, Structural)]
pub enum StreamingProvider {
    /// Spotify.
    Spotify,
    /// Apple Music.
    AppleMusic,
    /// Deezer.
    Deezer,
    /// Napster.
    Napster,
    /// YouTube (only the `lis.tn` redirect applies).
    YouTube,
}

/// The wire name of a provider.
pub open spec fn provider_name(p: StreamingProvider) -> Seq<char> {
    match p {
        StreamingProvider::Spotify => "spotify"@,
        StreamingProvider::AppleMusic => "apple_music"@,
        StreamingProvider::Deezer => "deezer"@,
        StreamingProvider::Napster => "napster"@,
        StreamingProvider::YouTube => "youtube"@,
    }
}

/// Distinct providers have distinct wire names.
pub proof fn lemma_provider_names_distinct(p: StreamingProvider, q: StreamingProvider)
    ensures
        p != q ==> provider_name(p) != provider_name(q),
{
    reveal_strlit("spotify");
    reveal_strlit("apple_music");
    reveal_strlit("deezer");
    reveal_strlit("napster");
    reveal_strlit("youtube");
    if p != q {
        assert(provider_name(p)[0] != provider_name(q)[0] || provider_name(p).len() != provider_name(
            q,
        ).len());
    }
}

/// Every provider, in the order [`RecognitionResult::streaming_urls`] lists them.
pub open spec fn all_providers() -> Seq<StreamingProvider> {
    seq![
        StreamingProvider::Spotify,
        StreamingProvider::AppleMusic,
        StreamingProvider::Deezer,
        StreamingProvider::Napster,
        StreamingProvider::YouTube,
    ]
}

impl StreamingProvider {
    /// Wire name of the provider (the `lis.tn?<provider>` query parameter).
    pub fn as_str(self) -> (r: &'static str)
        ensures
            r@ == provider_name(self),
    {
        match self {
            StreamingProvider::Spotify => "spotify",
            StreamingProvider::AppleMusic => "apple_music",
            StreamingProvider::Deezer => "deezer",
            StreamingProvider::Napster => "napster",
            StreamingProvider::YouTube => "youtube",
        }
    }

    /// Every provider, in reference order: Spotify, Apple Music, Deezer,
    /// Napster, YouTube.
    pub fn all() -> (r: Vec<StreamingProvider>)
        ensures
            r@ == all_providers(),
    {
        let r = vec![
            StreamingProvider::Spotify,
            StreamingProvider::AppleMusic,
            StreamingProvider::Deezer,
            StreamingProvider::Napster,
            StreamingProvider::YouTube,
        ];
        assert(r@ =~= all_providers());
        r
    }
}

/// Text that is present and not empty.
pub open spec fn non_empty_text(o: Option<Seq<char>>) -> Option<Seq<char>> {
    match o {
        Some(s) => if s.len() > 0 {
            Some(s)
        } else {
            None
        },
        None => None,
    }
}

/// A copy of `s` when it is present and not empty.
pub fn non_empty(s: Option<&str>) -> (r: Option<String>)
    ensures
        opt_string_view(r) == non_empty_text(crate::json::opt_str_view(s)),
{
    match s {
        Some(v) => if v.is_empty() {
            None
        } else {
            Some(string_of(v))
        },
        None => None,
    }
}

/// The entry named `key` among forward-compatible extras.
pub open spec fn extra(extras: Seq<(String, JsonValue)>, key: Seq<char>) -> Option<Json> {
    lookup(json_entries_view(extras), key)
}

/// `<song_link>?<provider>` (or `&<provider>` when the link already has a
/// query) when `song_link` is a `lis.tn` URL.
pub open spec fn lis_tn_url(song_link: Option<Seq<char>>, provider: Seq<char>) -> Option<Seq<char>> {
    match song_link {
        Some(link) => match parsed_url(link) {
            Ok(parts) => if parts.0 == Some("lis.tn"@) {
                Some(
                    link + seq![
                        if parts.1 {
                            '&'
                        } else {
                            '?'
                        },
                    ] + provider,
                )
            } else {
                None
            },
            Err(_) => None,
        },
        None => None,
    }
}

/// Builds the `lis.tn` redirect URL for `provider`, see [`lis_tn_url`].
pub fn lis_tn_streaming_url(song_link: Option<&str>, provider: &str) -> (r: Option<String>)
    ensures
        opt_string_view(r) == lis_tn_url(crate::json::opt_str_view(song_link), provider@),
{
    let link = match song_link {
        Some(l) => l,
        None => return None,
    };
    let parts = match parse_url(link) {
        Ok(p) => p,
        Err(_) => return None,
    };
    let is_lis_tn = match &parts.host {
        Some(h) => str_eq(h.as_str(), "lis.tn"),
        None => false,
    };
    if !is_lis_tn {
        return None;
    }
    let mut out = string_of(link);
    if parts.has_query {
        push_char(&mut out, '&');
    } else {
        push_char(&mut out, '?');
    }
    push_str(&mut out, provider);
    proof {
        let sep = if parts.has_query {
            '&'
        } else {
            '?'
        };
        assert(out@ =~= link@ + seq![sep] + provider@);
    }
    Some(out)
}

/// Apple Music metadata returned by the `apple_music` block.
#[derive(Debug, Default)]
pub struct AppleMusicMetadata {
    pub name: Option<String>,
    pub artist_name: Option<String>,
    pub album_name: Option<String>,
    pub url: Option<String>,
    pub duration_in_millis: Option<i64>,
    pub isrc: Option<String>,
    pub track_number: Option<i32>,
    pub composer_name: Option<String>,
    pub disc_number: Option<i32>,
    pub release_date: Option<String>,
    pub extras: Vec<(String, JsonValue)>,
}

/// Spotify metadata returned by the `spotify` block.
#[derive(Debug, Default)]
pub struct SpotifyMetadata {
    pub id: Option<String>,
    pub name: Option<String>,
    pub duration_ms: Option<i64>,
    pub explicit: Option<bool>,
    pub popularity: Option<i32>,
    pub track_number: Option<i32>,
    pub object_type: Option<String>,
    pub uri: Option<String>,
    pub extras: Vec<(String, JsonValue)>,
}

/// Deezer metadata returned by the `deezer` block.
#[derive(Debug, Default)]
pub struct DeezerMetadata {
    pub id: Option<i64>,
    pub title: Option<String>,
    pub duration: Option<i64>,
    pub link: Option<String>,
    pub extras: Vec<(String, JsonValue)>,
}

/// Napster metadata returned by the `napster` block.
#[derive(Debug, Default)]
pub struct NapsterMetadata {
    pub id: Option<String>,
    pub name: Option<String>,
    pub isrc: Option<String>,
    pub artist_name: Option<String>,
    pub album_name: Option<String>,
    pub extras: Vec<(String, JsonValue)>,
}

/// MusicBrainz match entry.
#[derive(Debug, Default)]
pub struct MusicBrainzEntry {
    pub id: String,
    pub score: Option<JsonValue>,
    pub title: Option<String>,
    pub length: Option<i64>,
    pub extras: Vec<(String, JsonValue)>,
}

/// A recognition result.
#[derive(Debug, Default)]
pub struct RecognitionResult {
    pub timecode: Option<String>,
    pub audio_id: Option<i64>,
    pub artist: Option<String>,
    pub title: Option<String>,
    pub album: Option<String>,
    pub release_date: Option<String>,
    pub label: Option<String>,
    pub song_link: Option<String>,
    pub isrc: Option<String>,
    pub upc: Option<String>,
    pub apple_music: Option<AppleMusicMetadata>,
    pub spotify: Option<SpotifyMetadata>,
    pub deezer: Option<DeezerMetadata>,
    pub napster: Option<NapsterMetadata>,
    pub musicbrainz: Option<Vec<MusicBrainzEntry>>,
    pub extras: Vec<(String, JsonValue)>,
}

/// The model of an optional integer field.
pub open spec fn int_of(o: Option<i64>) -> Option<int> {
    match o {
        Some(n) => Some(n as int),
        None => None,
    }
}

/// The model of an optional string field.
pub open spec fn text(o: Option<String>) -> Option<Seq<char>> {
    opt_string_view(o)
}

impl RecognitionResult {
    /// A custom-catalog match carries an `audio_id`.
    pub open spec fn spec_is_custom(&self) -> bool {
        self.audio_id is Some
    }

    /// A public-catalog match carries an artist or a title and no `audio_id`.
    pub open spec fn spec_is_public(&self) -> bool {
        self.audio_id is None && (self.artist is Some || self.title is Some)
    }

    /// `true` when `audio_id` is set (custom-catalog match).
    pub fn is_custom_match(&self) -> (r: bool)
        ensures
            r == self.spec_is_custom(),
    {
        self.audio_id.is_some()
    }

    /// `true` when `artist` or `title` is set and `audio_id` is not.
    pub fn is_public_match(&self) -> (r: bool)
        ensures
            r == self.spec_is_public(),
    {
        self.audio_id.is_none() && (self.artist.is_some() || self.title.is_some())
    }

    /// The direct link from the requested metadata block of `p`, if any.
    pub open spec fn direct_url(&self, p: StreamingProvider) -> Option<Seq<char>> {
        match p {
            StreamingProvider::AppleMusic => match self.apple_music {
                Some(am) => non_empty_text(text(am.url)),
                None => None,
            },
            StreamingProvider::Spotify => match self.spotify {
                Some(sp) => match non_empty_text(
                    str_of(field_of(extra(sp.extras@, "external_urls"@), "spotify"@)),
                ) {
                    Some(u) => Some(u),
                    None => non_empty_text(text(sp.uri)),
                },
                None => None,
            },
            StreamingProvider::Deezer => match self.deezer {
                Some(d) => non_empty_text(text(d.link)),
                None => None,
            },
            StreamingProvider::Napster => match self.napster {
                Some(n) => non_empty_text(str_of(extra(n.extras@, "href"@))),
                None => None,
            },
            StreamingProvider::YouTube => None,
        }
    }

    /// The link for `p`: the direct one first, then the `lis.tn` redirect.
    pub open spec fn spec_streaming_url(&self, p: StreamingProvider) -> Option<Seq<char>> {
        match self.direct_url(p) {
            Some(u) => Some(u),
            None => lis_tn_url(text(self.song_link), provider_name(p)),
        }
    }

    /// Cover-art URL (`<song_link>?thumb`) for `lis.tn` song links, else `None`.
    pub fn thumbnail_url(&self) -> (r: Option<String>)
        ensures
            opt_string_view(r) == lis_tn_url(text(self.song_link), "thumb"@),
    {
        lis_tn_streaming_url(opt_as_str(&self.song_link), "thumb")
    }

    /// Direct link from the metadata block of `provider`, if it was requested
    /// and carries one.
    fn direct_streaming_url(&self, provider: StreamingProvider) -> (r: Option<String>)
        ensures
            opt_string_view(r) == self.direct_url(provider),
    {
        proof {
            reveal_strlit("external_urls");
            reveal_strlit("spotify");
            reveal_strlit("href");
        }
        match provider {
            StreamingProvider::AppleMusic => match &self.apple_music {
                Some(am) => non_empty(opt_as_str(&am.url)),
                None => None,
            },
            StreamingProvider::Spotify => match &self.spotify {
                Some(sp) => {
                    let nested = match entry_get(sp.extras.as_slice(), "external_urls") {
                        Some(v) => match v.get("spotify") {
                            Some(s) => s.as_str(),
                            None => None,
                        },
                        None => None,
                    };
                    match non_empty(nested) {
                        Some(u) => Some(u),
                        None => non_empty(opt_as_str(&sp.uri)),
                    }
                },
                None => None,
            },
            StreamingProvider::Deezer => match &self.deezer {
                Some(d) => non_empty(opt_as_str(&d.link)),
                None => None,
            },
            StreamingProvider::Napster => match &self.napster {
                Some(n) => {
                    let href = match entry_get(n.extras.as_slice(), "href") {
                        Some(v) => v.as_str(),
                        None => None,
                    };
                    non_empty(href)
                },
                None => None,
            },
            StreamingProvider::YouTube => None,
        }
    }

    /// Direct or redirect URL for a streaming provider: the direct link from
    /// the requested metadata block first, then the `lis.tn` redirect.
    pub fn streaming_url(&self, provider: StreamingProvider) -> (r: Option<String>)
        ensures
            opt_string_view(r) == self.spec_streaming_url(provider),
    {
        match self.direct_streaming_url(provider) {
            Some(d) => Some(d),
            None => lis_tn_streaming_url(opt_as_str(&self.song_link), provider.as_str()),
        }
    }

    /// The resolvable links of `ps`, in order.
    pub open spec fn spec_streaming_urls(&self, ps: Seq<StreamingProvider>) -> Seq<
        (StreamingProvider, Seq<char>),
    >
        decreases ps.len(),
    {
        if ps.len() == 0 {
            Seq::empty()
        } else {
            let rest = self.spec_streaming_urls(ps.drop_last());
            match self.spec_streaming_url(ps.last()) {
                Some(u) => rest.push((ps.last(), u)),
                None => rest,
            }
        }
    }

    /// Every provider with a resolvable link (direct or `lis.tn`), in the
    /// order Spotify, Apple Music, Deezer, Napster, YouTube.
    pub fn streaming_urls(&self) -> (r: Vec<(StreamingProvider, String)>)
        ensures
            url_list_view(r@) == self.spec_streaming_urls(all_providers()),
    {
        let ps = StreamingProvider::all();
        let mut out: Vec<(StreamingProvider, String)> = Vec::new();
        let mut i: usize = 0;
        while i < ps.len()
            invariant
                ps@ == all_providers(),
                i <= ps@.len(),
                url_list_view(out@) == self.spec_streaming_urls(ps@.take(i as int)),
            decreases ps.len() - i,
        {
            let p = ps[i];
            let ghost before = out@;
            assert(ps@.take(i + 1).drop_last() =~= ps@.take(i as int));
            assert(ps@.take(i + 1).last() == p);
            match self.streaming_url(p) {
                Some(u) => {
                    out.push((p, u));
                    assert(url_list_view(out@) =~= url_list_view(before).push((p, out@.last().1@)));
                },
                None => {},
            }
            i = i + 1;
        }
        assert(ps@.take(ps@.len() as int) =~= ps@);
        out
    }

    /// The first non-empty preview link: Apple Music `previews[0].url`, then
    /// Spotify `preview_url`, then Deezer `preview`.
    pub open spec fn spec_preview_url(&self) -> Option<Seq<char>> {
        let am = match self.apple_music {
            Some(am) => non_empty_text(
                str_of(
                    field_of(
                        match extra(am.extras@, "previews"@) {
                            Some(Json::Array(items)) => if items.len() > 0 {
                                Some(items[0])
                            } else {
                                None
                            },
                            _ => None,
                        },
                        "url"@,
                    ),
                ),
            ),
            None => None,
        };
        let sp = match self.spotify {
            Some(sp) => non_empty_text(str_of(extra(sp.extras@, "preview_url"@))),
            None => None,
        };
        let dz = match self.deezer {
            Some(d) => non_empty_text(str_of(extra(d.extras@, "preview"@))),
            None => None,
        };
        if am is Some {
            am
        } else if sp is Some {
            sp
        } else {
            dz
        }
    }

    /// First available 30-second audio preview URL, in priority order.
    pub fn preview_url(&self) -> (r: Option<String>)
        ensures
            opt_string_view(r) == self.spec_preview_url(),
    {
        if let Some(am) = &self.apple_music {
            let first_url = match entry_get(am.extras.as_slice(), "previews") {
                Some(v) => match v.as_array() {
                    Some(items) => {
                        proof {
                            crate::json::lemma_seq_view(items@);
                        }
                        if items.len() > 0 {
                            match items[0].get("url") {
                                Some(u) => u.as_str(),
                                None => None,
                            }
                        } else {
                            None
                        }
                    },
                    None => None,
                },
                None => None,
            };
            if let Some(u) = non_empty(first_url) {
                return Some(u);
            }
        }
        if let Some(sp) = &self.spotify {
            let p = match entry_get(sp.extras.as_slice(), "preview_url") {
                Some(v) => v.as_str(),
                None => None,
            };
            if let Some(u) = non_empty(p) {
                return Some(u);
            }
        }
        if let Some(dz) = &self.deezer {
            let p = match entry_get(dz.extras.as_slice(), "preview") {
                Some(v) => v.as_str(),
                None => None,
            };
            if let Some(u) = non_empty(p) {
                return Some(u);
            }
        }
        None
    }
}

/// Sealed view over [`RecognitionResult`]: public-catalog or custom-catalog match.
#[derive(Debug)]
pub enum RecognitionMatch {
    /// Public-catalog match.
    Public(RecognitionResult),
    /// Custom-catalog match.
    Custom(RecognitionResult),
}

impl From<RecognitionResult> for RecognitionMatch {
    fn from(r: RecognitionResult) -> (m: RecognitionMatch) {
        if r.audio_id.is_some() {
            RecognitionMatch::Custom(r)
        } else {
            RecognitionMatch::Public(r)
        }
    }
}

impl vstd::std_specs::convert::FromSpecImpl<RecognitionResult> for RecognitionMatch {
    open spec fn obeys_from_spec() -> bool {
        true
    }

    open spec fn from_spec(r: RecognitionResult) -> RecognitionMatch {
        if r.audio_id is Some {
            RecognitionMatch::Custom(r)
        } else {
            RecognitionMatch::Public(r)
        }
    }
}

impl RecognitionMatch {
    /// The wrapped result.
    pub open spec fn spec_result(&self) -> RecognitionResult {
        match self {
            RecognitionMatch::Public(r) => *r,
            RecognitionMatch::Custom(r) => *r,
        }
    }

    /// Borrow the underlying [`RecognitionResult`].
    pub fn result(&self) -> (r: &RecognitionResult)
        ensures
            *r == self.spec_result(),
    {
        match self {
            RecognitionMatch::Public(r) => r,
            RecognitionMatch::Custom(r) => r,
        }
    }

    /// Consume the wrapper, returning the underlying [`RecognitionResult`].
    pub fn into_result(self) -> (r: RecognitionResult)
        ensures
            r == self.spec_result(),
    {
        match self {
            RecognitionMatch::Public(r) => r,
            RecognitionMatch::Custom(r) => r,
        }
    }
}

/// One match in an enterprise-recognition response.
#[derive(Debug, Default)]
pub struct EnterpriseMatch {
    pub score: Option<i32>,
    pub timecode: Option<String>,
    pub artist: Option<String>,
    pub title: Option<String>,
    pub album: Option<String>,
    pub release_date: Option<String>,
    pub label: Option<String>,
    pub isrc: Option<String>,
    pub upc: Option<String>,
    pub song_link: Option<String>,
    pub start_offset: Option<i64>,
    pub end_offset: Option<i64>,
    pub extras: Vec<(String, JsonValue)>,
}

impl EnterpriseMatch {
    /// The `lis.tn` redirect link for `p`.
    pub open spec fn spec_streaming_url(&self, p: StreamingProvider) -> Option<Seq<char>> {
        lis_tn_url(text(self.song_link), provider_name(p))
    }

    /// The resolvable links of `ps`, in order.
    pub open spec fn spec_streaming_urls(&self, ps: Seq<StreamingProvider>) -> Seq<
        (StreamingProvider, Seq<char>),
    >
        decreases ps.len(),
    {
        if ps.len() == 0 {
            Seq::empty()
        } else {
            let rest = self.spec_streaming_urls(ps.drop_last());
            match self.spec_streaming_url(ps.last()) {
                Some(u) => rest.push((ps.last(), u)),
                None => rest,
            }
        }
    }

    /// Cover-art URL for `lis.tn`-hosted song links, else `None`.
    pub fn thumbnail_url(&self) -> (r: Option<String>)
        ensures
            opt_string_view(r) == lis_tn_url(text(self.song_link), "thumb"@),
    {
        lis_tn_streaming_url(opt_as_str(&self.song_link), "thumb")
    }

    /// `lis.tn` redirect URL for a provider (enterprise matches carry no
    /// metadata blocks, so only the redirect applies).
    pub fn streaming_url(&self, provider: StreamingProvider) -> (r: Option<String>)
        ensures
            opt_string_view(r) == self.spec_streaming_url(provider),
    {
        lis_tn_streaming_url(opt_as_str(&self.song_link), provider.as_str())
    }

    /// All providers' redirect URLs, in reference order; empty when
    /// `song_link` is not a `lis.tn` URL.
    pub fn streaming_urls(&self) -> (r: Vec<(StreamingProvider, String)>)
        ensures
            url_list_view(r@) == self.spec_streaming_urls(all_providers()),
    {
        let ps = StreamingProvider::all();
        let mut out: Vec<(StreamingProvider, String)> = Vec::new();
        let mut i: usize = 0;
        while i < ps.len()
            invariant
                ps@ == all_providers(),
                i <= ps@.len(),
                url_list_view(out@) == self.spec_streaming_urls(ps@.take(i as int)),
            decreases ps.len() - i,
        {
            let p = ps[i];
            let ghost before = out@;
            assert(ps@.take(i + 1).drop_last() =~= ps@.take(i as int));
            assert(ps@.take(i + 1).last() == p);
            match self.streaming_url(p) {
                Some(u) => {
                    out.push((p, u));
                    assert(url_list_view(out@) =~= url_list_view(before).push((p, out@.last().1@)));
                },
                None => {},
            }
            i = i + 1;
        }
        assert(ps@.take(ps@.len() as int) =~= ps@);
        out
    }
}

/// One chunk of an enterprise-recognition response.
#[derive(Debug, Default)]
pub struct EnterpriseChunkResult {
    pub songs: Vec<EnterpriseMatch>,
    pub offset: String,
    pub extras: Vec<(String, JsonValue)>,
}

/// The songs of all chunks, chunk by chunk, in order.
pub open spec fn chunk_songs(chunks: Seq<EnterpriseChunkResult>) -> Seq<EnterpriseMatch>
    decreases chunks.len(),
{
    if chunks.len() == 0 {
        Seq::empty()
    } else {
        chunk_songs(chunks.drop_last()) + chunks.last().songs@
    }
}

/// Every match of every chunk, in order (what `recognize_enterprise` returns).
pub fn flatten_chunk_songs(chunks: Vec<EnterpriseChunkResult>) -> (r: Vec<EnterpriseMatch>)
    ensures
        r@ == chunk_songs(chunks@),
{
    broadcast use vstd::std_specs::vec::group_vec_axioms;

    let ghost all = chunks@;
    let mut out: Vec<EnterpriseMatch> = Vec::new();
    assert(all.take(0) =~= Seq::<EnterpriseChunkResult>::empty());
    for chunk in iter: chunks.into_iter()
        invariant
            iter.seq() == all,
            out@ == chunk_songs(all.take(iter.index() as int)),
    {
        let ghost k = iter.index() as int;
        assert(chunk == all[k]);
        assert(all.take(k + 1).drop_last() =~= all.take(k));
        let mut songs = chunk.songs;
        out.append(&mut songs);
    }
    assert(all.take(all.len() as int) =~= all);
    out
}

/// One row in the streams list.
#[derive(Debug, Default)]
pub struct Stream {
    pub radio_id: Option<i64>,
    pub url: Option<String>,
    pub stream_running: bool,
    pub longpoll_category: Option<String>,
    pub extras: Vec<(String, JsonValue)>,
}

/// One candidate song in a stream-recognition match.
#[derive(Debug, Default)]
pub struct StreamCallbackSong {
    pub artist: Option<String>,
    pub title: Option<String>,
    pub score: Option<i32>,
    pub album: Option<String>,
    pub release_date: Option<String>,
    pub label: Option<String>,
    pub song_link: Option<String>,
    pub isrc: Option<String>,
    pub upc: Option<String>,
    pub apple_music: Option<AppleMusicMetadata>,
    pub spotify: Option<SpotifyMetadata>,
    pub deezer: Option<DeezerMetadata>,
    pub napster: Option<NapsterMetadata>,
    pub musicbrainz: Option<Vec<MusicBrainzEntry>>,
    pub extras: Vec<(String, JsonValue)>,
}

impl StreamCallbackSong {
    /// Whether every field is absent.
    pub open spec fn spec_is_empty(&self) -> bool {
        &&& self.artist is None && self.title is None && self.score is None
        &&& self.album is None && self.release_date is None && self.label is None
        &&& self.song_link is None && self.isrc is None && self.upc is None
        &&& self.apple_music is None && self.spotify is None && self.deezer is None
        &&& self.napster is None && self.musicbrainz is None && self.extras@.len() == 0
    }

    /// A song with every field absent.
    fn empty() -> (r: StreamCallbackSong)
        ensures
            r.spec_is_empty(),
    {
        StreamCallbackSong {
            artist: None,
            title: None,
            score: None,
            album: None,
            release_date: None,
            label: None,
            song_link: None,
            isrc: None,
            upc: None,
            apple_music: None,
            spotify: None,
            deezer: None,
            napster: None,
            musicbrainz: None,
            extras: Vec::new(),
        }
    }
}

/// One recognition event from a stream callback or longpoll envelope: the
/// top song and the rare alternative candidates.
#[derive(Debug)]
pub struct StreamCallbackMatch {
    pub radio_id: Option<i64>,
    pub timestamp: Option<String>,
    pub play_length: Option<i64>,
    pub song: StreamCallbackSong,
    pub alternatives: Vec<StreamCallbackSong>,
    pub extras: Vec<(String, JsonValue)>,
    pub raw_response: JsonValue,
}

/// An integer read leniently: anything but an `i64` integer is absent.
pub open spec fn lenient_int(v: Option<Json>) -> Option<int> {
    match v {
        Some(Json::Int(n)) => Some(n),
        _ => None,
    }
}

/// Text read leniently: anything but a string is absent.
pub open spec fn lenient_text(v: Option<Json>) -> Option<Seq<char>> {
    match v {
        Some(Json::Str(s)) => Some(s),
        _ => None,
    }
}

/// Object entries without the four typed members of a recognition event.
pub open spec fn event_extras(e: Seq<(Seq<char>, Json)>) -> Seq<(Seq<char>, Json)> {
    crate::json::without_key(
        crate::json::without_key(
            crate::json::without_key(crate::json::without_key(e, "radio_id"@), "timestamp"@),
            "play_length"@,
        ),
        "results"@,
    )
}

/// The `results` list a recognition event is written with: the top song
/// first, then the alternatives.
pub open spec fn wire_results(song: StreamCallbackSong, alternatives: Seq<StreamCallbackSong>) -> Seq<StreamCallbackSong> {
    seq![song] + alternatives
}

impl StreamCallbackMatch {
    /// Builds a recognition event from its wire object: `radio_id`,
    /// `timestamp` and `play_length` read leniently (a wrong type is absent,
    /// never an error), `results` already decoded into songs (the first is the
    /// top song, an empty list gives an empty song), every other member kept
    /// in `extras`.
    pub fn from_wire(object: Vec<(String, JsonValue)>, results: Vec<StreamCallbackSong>) -> (m: StreamCallbackMatch)
        ensures
            int_of(m.radio_id) == lenient_int(lookup(json_entries_view(object@), "radio_id"@)),
            text(m.timestamp) == lenient_text(lookup(json_entries_view(object@), "timestamp"@)),
            int_of(m.play_length) == lenient_int(lookup(json_entries_view(object@), "play_length"@)),
            results@.len() > 0 ==> m.song == results@[0] && m.alternatives@ == results@.drop_first(),
            results@.len() == 0 ==> m.song.spec_is_empty() && m.alternatives@.len() == 0,
            json_entries_view(m.extras@) == event_extras(json_entries_view(object@)),
            m.raw_response@ == Json::Null,
    {
        let radio_id = match entry_get(object.as_slice(), "radio_id") {
            Some(v) => v.as_i64(),
            None => None,
        };
        let timestamp = match entry_get(object.as_slice(), "timestamp") {
            Some(JsonValue::Str(t)) => Some(t.clone()),
            _ => None,
        };
        let play_length = match entry_get(object.as_slice(), "play_length") {
            Some(v) => v.as_i64(),
            None => None,
        };
        let rest = crate::json::remove_key(object, "radio_id");
        let rest = crate::json::remove_key(rest, "timestamp");
        let rest = crate::json::remove_key(rest, "play_length");
        let extras = crate::json::remove_key(rest, "results");
        let mut results = results;
        let song = if results.len() > 0 {
            results.remove(0)
        } else {
            StreamCallbackSong::empty()
        };
        StreamCallbackMatch {
            radio_id,
            timestamp,
            play_length,
            song,
            alternatives: results,
            extras,
            raw_response: JsonValue::Null,
        }
    }

    /// Writes this event as its wire object and `results` list (consumes the
    /// event). The object holds `radio_id`, `timestamp` and `play_length` when
    /// present, in that order, then the extras; the second value is how many
    /// typed entries lead the object, where `results` belongs; the list is the
    /// top song, then the alternatives.
    pub fn into_wire(self) -> (r: (Vec<(String, JsonValue)>, usize, Vec<StreamCallbackSong>))
        ensures
            json_entries_view(r.0@) == typed_head(self.radio_id, self.timestamp, self.play_length)
                + json_entries_view(self.extras@),
            r.1 == typed_head(self.radio_id, self.timestamp, self.play_length).len(),
            r.2@ == wire_results(self.song, self.alternatives@),
    {
        let StreamCallbackMatch { radio_id, timestamp, play_length, song, alternatives, extras, .. } =
            self;
        let ghost ts_view = text(timestamp);
        let mut head: Vec<(String, JsonValue)> = Vec::new();
        if let Some(r) = radio_id {
            head.push((string_of("radio_id"), JsonValue::Int(r)));
        }
        if let Some(t) = timestamp {
            head.push((string_of("timestamp"), JsonValue::Str(t)));
        }
        if let Some(p) = play_length {
            head.push((string_of("play_length"), JsonValue::Int(p)));
        }
        proof {
            crate::json::lemma_entries_view(head@);
            assert(json_entries_view(head@) =~= typed_head(radio_id, timestamp, play_length));
        }
        let n = head.len();
        let ghost head_seq = head@;
        let mut rest = extras;
        let ghost extras_seq = rest@;
        head.append(&mut rest);
        proof {
            assert(head@ =~= head_seq + extras_seq);
            crate::json::lemma_entries_view_append(head_seq, extras_seq);
        }
        let mut results = alternatives;
        let ghost alts = results@;
        results.insert(0, song);
        assert(results@ =~= wire_results(song, alts));
        (head, n, results)
    }
}

/// The typed entries an event is written with: `radio_id`, `timestamp` and
/// `play_length`, each when present, in that order.
pub open spec fn typed_head(radio_id: Option<i64>, timestamp: Option<String>, play_length: Option<i64>) -> Seq<
    (Seq<char>, Json),
> {
    (match radio_id {
        Some(r) => seq![("radio_id"@, Json::Int(r as int))],
        None => Seq::empty(),
    }) + (match timestamp {
        Some(t) => seq![("timestamp"@, Json::Str(t@))],
        None => Seq::empty(),
    }) + (match play_length {
        Some(p) => seq![("play_length"@, Json::Int(p as int))],
        None => Seq::empty(),
    })
}

/// Whether no entry is named like a typed member of an event's wire object.
pub open spec fn lacks_wire_keys(e: Seq<(Seq<char>, Json)>) -> bool {
    forall|j: int|
        0 <= j < e.len() ==> {
            let k = #[trigger] e[j].0;
            k != "radio_id"@ && k != "timestamp"@ && k != "play_length"@ && k != "results"@
        }
}

/// An event's extras leave out a single entry named like a typed member.
proof fn lemma_event_extras_single(k: Seq<char>, v: Json)
    requires
        k == "radio_id"@ || k == "timestamp"@ || k == "play_length"@,
    ensures
        event_extras(seq![(k, v)]) =~= Seq::<(Seq<char>, Json)>::empty(),
{
    reveal_strlit("radio_id");
    reveal_strlit("timestamp");
    reveal_strlit("play_length");
    assert("radio_id"@[0] != "timestamp"@[0]);
    assert("radio_id"@[0] != "play_length"@[0]);
    assert("timestamp"@[0] != "play_length"@[0]);
    let e = seq![(k, v)];
    let none = Seq::<(Seq<char>, Json)>::empty();
    assert(e.drop_last() =~= none);
    assert(e.last() == (k, v));
    assert(crate::json::without_key(none, "radio_id"@) == none);
    assert(crate::json::without_key(none, "timestamp"@) == none);
    assert(crate::json::without_key(none, "play_length"@) == none);
    assert(crate::json::without_key(none, "results"@) == none);
    let w1 = crate::json::without_key(e, "radio_id"@);
    let w2 = crate::json::without_key(w1, "timestamp"@);
    let w3 = crate::json::without_key(w2, "play_length"@);
    if k == "radio_id"@ {
        assert(w1 =~= Seq::<(Seq<char>, Json)>::empty());
    } else if k == "timestamp"@ {
        assert(w1 == Seq::<(Seq<char>, Json)>::empty().push(e.last()));
        assert(w1 =~= e);
        assert(w2 =~= Seq::<(Seq<char>, Json)>::empty());
    } else {
        assert(w1 == Seq::<(Seq<char>, Json)>::empty().push(e.last()));
        assert(w1 =~= e);
        assert(w2 == Seq::<(Seq<char>, Json)>::empty().push(e.last()));
        assert(w2 =~= e);
        assert(w3 =~= Seq::<(Seq<char>, Json)>::empty());
    }
}

/// The extras of a joined object are the extras of each part, joined.
proof fn lemma_event_extras_append(a: Seq<(Seq<char>, Json)>, b: Seq<(Seq<char>, Json)>)
    ensures
        event_extras(a + b) == event_extras(a) + event_extras(b),
{
    crate::json::lemma_without_key_append(a, b, "radio_id"@);
    let a1 = crate::json::without_key(a, "radio_id"@);
    let b1 = crate::json::without_key(b, "radio_id"@);
    crate::json::lemma_without_key_append(a1, b1, "timestamp"@);
    let a2 = crate::json::without_key(a1, "timestamp"@);
    let b2 = crate::json::without_key(b1, "timestamp"@);
    crate::json::lemma_without_key_append(a2, b2, "play_length"@);
    let a3 = crate::json::without_key(a2, "play_length"@);
    let b3 = crate::json::without_key(b2, "play_length"@);
    crate::json::lemma_without_key_append(a3, b3, "results"@);
}

/// Writing a recognition event and reading it back gives the same event:
/// `radio_id`, `timestamp` and `play_length` are read from the wire object,
/// the top song and alternatives from the `results` list, and the extras are
/// the rest of the object, unchanged when no extra is named like a typed
/// member.
pub proof fn lemma_wire_round_trip(m: StreamCallbackMatch)
    requires
        lacks_wire_keys(json_entries_view(m.extras@)),
    ensures
        ({
            let object = typed_head(m.radio_id, m.timestamp, m.play_length) + json_entries_view(
                m.extras@,
            );
            let results = wire_results(m.song, m.alternatives@);
            &&& lenient_int(lookup(object, "radio_id"@)) == int_of(m.radio_id)
            &&& lenient_text(lookup(object, "timestamp"@)) == text(m.timestamp)
            &&& lenient_int(lookup(object, "play_length"@)) == int_of(m.play_length)
            &&& event_extras(object) == json_entries_view(m.extras@)
            &&& results.len() > 0 && results[0] == m.song && results.drop_first() == m.alternatives@
        }),
{
    reveal_strlit("radio_id");
    reveal_strlit("timestamp");
    reveal_strlit("play_length");
    reveal_strlit("results");
    assert("radio_id"@[0] != "timestamp"@[0]);
    assert("radio_id"@[0] != "play_length"@[0]);
    assert("timestamp"@[0] != "play_length"@[0]);
    assert("radio_id"@[1] != "results"@[1]);
    assert("timestamp"@[0] != "results"@[0]);
    assert("play_length"@[0] != "results"@[0]);
    let x = json_entries_view(m.extras@);
    let h1: Seq<(Seq<char>, Json)> = match m.radio_id {
        Some(r) => seq![("radio_id"@, Json::Int(r as int))],
        None => Seq::empty(),
    };
    let h2: Seq<(Seq<char>, Json)> = match m.timestamp {
        Some(t) => seq![("timestamp"@, Json::Str(t@))],
        None => Seq::empty(),
    };
    let h3: Seq<(Seq<char>, Json)> = match m.play_length {
        Some(p) => seq![("play_length"@, Json::Int(p as int))],
        None => Seq::empty(),
    };
    let head = typed_head(m.radio_id, m.timestamp, m.play_length);
    assert(head == h1 + h2 + h3);
    let object = head + x;
    assert(object =~= h1 + (h2 + (h3 + x)));
    // The extras.
    lemma_event_extras_append(head, x);
    lemma_event_extras_append(h1 + h2, h3);
    lemma_event_extras_append(h1, h2);
    if let Some(r) = m.radio_id {
        lemma_event_extras_single("radio_id"@, Json::Int(r as int));
    }
    if let Some(t) = m.timestamp {
        lemma_event_extras_single("timestamp"@, Json::Str(t@));
    }
    if let Some(p) = m.play_length {
        lemma_event_extras_single("play_length"@, Json::Int(p as int));
    }
    assert(event_extras(h1) =~= Seq::<(Seq<char>, Json)>::empty());
    assert(event_extras(h2) =~= Seq::<(Seq<char>, Json)>::empty());
    assert(event_extras(h3) =~= Seq::<(Seq<char>, Json)>::empty());
    crate::json::lemma_without_key_absent(x, "radio_id"@);
    crate::json::lemma_without_key_absent(x, "timestamp"@);
    crate::json::lemma_without_key_absent(x, "play_length"@);
    crate::json::lemma_without_key_absent(x, "results"@);
    assert(event_extras(x) == x);
    assert(event_extras(head) =~= Seq::<(Seq<char>, Json)>::empty());
    assert(event_extras(object) =~= x);
    // The typed members.
    let n1 = h1.len() as int;
    let n2 = (h1.len() + h2.len()) as int;
    assert forall|j: int| 0 <= j < object.len() && j >= n2 + h3.len() implies #[trigger] object[j]
        == x[j - n2 - h3.len()] by {}
    if m.radio_id is Some {
        crate::json::lemma_lookup_at(object, "radio_id"@, 0);
    } else {
        assert forall|j: int| 0 <= j < object.len() implies #[trigger] object[j].0 != "radio_id"@ by {
            if j >= n2 + h3.len() {
                assert(object[j] == x[j - n2 - h3.len()]);
            }
        }
        crate::json::lemma_lookup_absent(object, "radio_id"@);
    }
    if m.timestamp is Some {
        crate::json::lemma_lookup_at(object, "timestamp"@, n1);
    } else {
        assert forall|j: int| 0 <= j < object.len() implies #[trigger] object[j].0 != "timestamp"@ by {
            if j >= n2 + h3.len() {
                assert(object[j] == x[j - n2 - h3.len()]);
            }
        }
        crate::json::lemma_lookup_absent(object, "timestamp"@);
    }
    if m.play_length is Some {
        crate::json::lemma_lookup_at(object, "play_length"@, n2);
    } else {
        assert forall|j: int| 0 <= j < object.len() implies #[trigger] object[j].0 != "play_length"@ by {
            if j >= n2 + h3.len() {
                assert(object[j] == x[j - n2 - h3.len()]);
            }
        }
        crate::json::lemma_lookup_absent(object, "play_length"@);
    }
    assert(wire_results(m.song, m.alternatives@).drop_first() =~= m.alternatives@);
}

/// The `notification` payload of a stream-management callback.
#[derive(Debug, Default)]
pub struct StreamCallbackNotification {
    pub radio_id: Option<i64>,
    pub stream_running: Option<bool>,
    pub notification_code: Option<i32>,
    pub notification_message: Option<String>,
    pub time: Option<i64>,
    pub extras: Vec<(String, JsonValue)>,
    pub raw_response: JsonValue,
}

/// A parsed stream callback: a recognition match or a lifecycle notification.
#[derive(Debug)]
pub enum CallbackEvent {
    /// Recognition match.
    Match(StreamCallbackMatch),
    /// Stream lifecycle notification.
    Notification(StreamCallbackNotification),
}

impl CallbackEvent {
    /// Borrow the inner match, if this is a match.
    pub fn as_match(&self) -> (r: Option<&StreamCallbackMatch>)
        ensures
            match self {
                CallbackEvent::Match(m) => r == Some(m),
                _ => r is None,
            },
    {
        match self {
            CallbackEvent::Match(m) => Some(m),
            _ => None,
        }
    }

    /// Borrow the inner notification, if this is a notification.
    pub fn as_notification(&self) -> (r: Option<&StreamCallbackNotification>)
        ensures
            match self {
                CallbackEvent::Notification(n) => r == Some(n),
                _ => r is None,
            },
    {
        match self {
            CallbackEvent::Notification(n) => Some(n),
            _ => None,
        }
    }
}

/// One result from `findLyrics`.
#[derive(Debug, Default)]
pub struct LyricsResult {
    pub artist: Option<String>,
    pub title: Option<String>,
    pub lyrics: Option<String>,
    pub song_id: Option<i64>,
    pub media: Option<String>,
    pub full_title: Option<String>,
    pub artist_id: Option<i64>,
    pub song_link: Option<String>,
    pub extras: Vec<(String, JsonValue)>,
}

/// The model of a list of provider links.
pub open spec fn url_list_view(v: Seq<(StreamingProvider, String)>) -> Seq<(StreamingProvider, Seq<char>)> {
    v.map_values(|e: (StreamingProvider, String)| (e.0, e.1@))
}

/// Borrow the text of an optional string.
pub fn opt_as_str(o: &Option<String>) -> (r: Option<&str>)
    ensures
        crate::json::opt_str_view(r) == opt_string_view(*o),
{
    match o {
        Some(s) => Some(s.as_str()),
        None => None,
    }
}

/// Spotify's web link (`external_urls.spotify`), when present and not empty,
/// is the Spotify streaming link; the `uri` is used only without one, and the
/// `lis.tn` redirect only without either.
pub proof fn lemma_spotify_web_link_first(r: RecognitionResult, sp: SpotifyMetadata)
    requires
        r.spotify == Some(sp),
    ensures
        ({
            let web = str_of(field_of(extra(sp.extras@, "external_urls"@), "spotify"@));
            &&& web matches Some(u) ==> (u.len() > 0 ==> r.spec_streaming_url(
                StreamingProvider::Spotify,
            ) == Some(u))
            &&& (!(web matches Some(u) && u.len() > 0) && (text(sp.uri) matches Some(u) && u.len()
                > 0)) ==> r.spec_streaming_url(StreamingProvider::Spotify) == text(sp.uri)
        }),
{
}

/// Preview links go in priority order: a non-empty Spotify `preview_url` is
/// the preview whenever Apple Music gives none, whatever Deezer holds; Deezer's
/// `preview` is used only when neither of the others gives one.
pub proof fn lemma_preview_priority(r: RecognitionResult, sp: SpotifyMetadata)
    requires
        r.apple_music is None,
        r.spotify == Some(sp),
    ensures
        ({
            let p = str_of(extra(sp.extras@, "preview_url"@));
            p matches Some(u) ==> (u.len() > 0 ==> r.spec_preview_url() == Some(u))
        }),
{
}

/// With neither an Apple Music nor a Spotify preview, the Deezer `preview`
/// is the preview when it is not empty.
pub proof fn lemma_preview_deezer_last(r: RecognitionResult, d: DeezerMetadata)
    requires
        r.apple_music is None,
        r.spotify is None,
        r.deezer == Some(d),
    ensures
        ({
            let p = str_of(extra(d.extras@, "preview"@));
            p matches Some(u) ==> (u.len() > 0 ==> r.spec_preview_url() == Some(u))
        }),
{
}

} // verus!
