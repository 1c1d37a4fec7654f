//! The data that the server keeps and exchanges: track data sent by the
//! Spotify plugin, the current player data, and the kinds of clients.
use vstd::prelude::*;
use vstd::string::StringExecFns;
use crate::number::{parse_u64, parse_unsigned};
use crate::text::{chars_of, has_prefix, starts_with, substring, trim, trimmed};

verus! {

/// Track metadata as the Spotify plugin reports it; every field may be missing.
#[derive(Debug, Clone)]
pub struct SpotifyMetadata {
    pub artist_name: Option<String>,
    pub album_title: Option<String>,
    pub title: Option<String>,
    pub duration: Option<String>,
    pub image_url: Option<String>,
}

/// One track update from the Spotify plugin.
#[derive(Debug, Clone)]
pub struct SpotifyTrackData {
    pub metadata: Option<SpotifyMetadata>,
    pub uri: Option<String>,
    pub uid: Option<String>,
}

/// The player data that the server holds and hands to web clients.
#[derive(Debug, Clone)]
pub struct PlayerData {
    pub track_title: String,
    pub artist_name: String,
    pub album_title: String,
    pub duration: String,
    pub image_url: String,
    pub uri: String,
    pub raw_data: String,
}

/// The kind of a connected client.
#[derive(Debug, Clone, Copy, PartialEq, Eq, Structural)]
pub enum ClientType {
    Spotify,
    WebInterface,
    Unknown,
}

/// The contents of a [`PlayerData`] as character sequences.
#[verifier::ext_equal]
pub struct PlayerView {
    pub track_title: Seq<char>,
    pub artist_name: Seq<char>,
    pub album_title: Seq<char>,
    pub duration: Seq<char>,
    pub image_url: Seq<char>,
    pub uri: Seq<char>,
    pub raw_data: Seq<char>,
}

impl View for PlayerData {
    type V = PlayerView;

    open spec fn view(&self) -> PlayerView {
        PlayerView {
            track_title: self.track_title@,
            artist_name: self.artist_name@,
            album_title: self.album_title@,
            duration: self.duration@,
            image_url: self.image_url@,
            uri: self.uri@,
            raw_data: self.raw_data@,
        }
    }
}

/// The player data before any track was reported.
pub open spec fn initial_player() -> PlayerView {
    PlayerView {
        track_title: "No track info yet"@,
        artist_name: "Unknown Artist"@,
        album_title: "Unknown Album"@,
        duration: "0"@,
        image_url: Seq::empty(),
        uri: Seq::empty(),
        raw_data: Seq::empty(),
    }
}

impl Default for PlayerData {
    fn default() -> (p: PlayerData)
        ensures
            p@ == initial_player(),
    {
        PlayerData {
            track_title: String::from_str("No track info yet"),
            artist_name: String::from_str("Unknown Artist"),
            album_title: String::from_str("Unknown Album"),
            duration: String::from_str("0"),
            image_url: String::new(),
            uri: String::new(),
            raw_data: String::new(),
        }
    }
}

/// The text of `o`, or `d` where it is missing.
pub open spec fn text_or(o: Option<String>, d: Seq<char>) -> Seq<char> {
    match o {
        Some(s) => s@,
        None => d,
    }
}

/// The address at which a web page can load an image that the plugin names:
/// the trimmed text, where a `spotify:image:` reference becomes a link to
/// Spotify's image CDN.
pub open spec fn display_image_url(url: Seq<char>) -> Seq<char> {
    let t = trim(url);
    if has_prefix(t, "spotify:image:"@) {
        "https://i.scdn.co/image/"@ + t.subrange("spotify:image:"@.len() as int, t.len() as int)
    } else {
        t
    }
}

/// The player data once the metadata `m` is taken over.
pub open spec fn with_metadata(p: PlayerView, m: SpotifyMetadata) -> PlayerView {
    PlayerView {
        track_title: text_or(m.title, "Unknown Track"@),
        artist_name: text_or(m.artist_name, "Unknown Artist"@),
        album_title: text_or(m.album_title, "Unknown Album"@),
        duration: text_or(m.duration, "0"@),
        image_url: display_image_url(text_or(m.image_url, Seq::empty())),
        ..p
    }
}

/// Taking over `m` names another track: its title, artist or album differs.
pub open spec fn metadata_names_other_track(p: PlayerView, m: SpotifyMetadata) -> bool {
    ||| text_or(m.title, "Unknown Track"@) != p.track_title
    ||| text_or(m.artist_name, "Unknown Artist"@) != p.artist_name
    ||| text_or(m.album_title, "Unknown Album"@) != p.album_title
}

/// The player data after the track update `t`, and whether the track changed.
pub open spec fn after_track_data(p: PlayerView, t: SpotifyTrackData) -> (PlayerView, bool) {
    let (p1, changed) = match t.metadata {
        Some(m) => (with_metadata(p, m), metadata_names_other_track(p, m)),
        None => (p, false),
    };
    match t.uri {
        Some(u) => (PlayerView { uri: u@, ..p1 }, changed || u@ != p1.uri),
        None => (p1, changed),
    }
}

/// What the plugin's `command` event carried, as far as it could be read:
/// track data, a bare string, or something else.
#[derive(Debug, Clone)]
pub enum CommandPayload {
    Track(SpotifyTrackData),
    Text(String),
    Other,
}

/// The player data after a `command` event whose JSON text is `raw`, and
/// whether the track changed.
pub open spec fn after_command(p: PlayerView, raw: Seq<char>, payload: CommandPayload) -> (
    PlayerView,
    bool,
) {
    let p0 = PlayerView { raw_data: raw, ..p };
    match payload {
        CommandPayload::Track(t) => after_track_data(p0, t),
        CommandPayload::Text(s) => (PlayerView { track_title: s@, ..p0 }, false),
        CommandPayload::Other => (PlayerView { track_title: raw, ..p0 }, false),
    }
}

/// The track data that web clients receive.
#[derive(Debug, Clone)]
pub struct TrackPayload {
    pub name: String,
    pub artist: String,
    pub album: String,
    pub image_url: String,
    pub duration_ms: u64,
    pub progress_ms: u64,
    pub id: String,
}

/// The contents of a [`TrackPayload`].
#[verifier::ext_equal]
pub struct PayloadView {
    pub name: Seq<char>,
    pub artist: Seq<char>,
    pub album: Seq<char>,
    pub image_url: Seq<char>,
    pub duration_ms: u64,
    pub progress_ms: u64,
    pub id: Seq<char>,
}

impl View for TrackPayload {
    type V = PayloadView;

    open spec fn view(&self) -> PayloadView {
        PayloadView {
            name: self.name@,
            artist: self.artist@,
            album: self.album@,
            image_url: self.image_url@,
            duration_ms: self.duration_ms,
            progress_ms: self.progress_ms,
            id: self.id@,
        }
    }
}

/// The duration in milliseconds that the text `d` gives, or 0 where it is no
/// `u64`.
pub open spec fn duration_ms(d: Seq<char>) -> u64 {
    match parse_unsigned(d, u64::MAX as int) {
        Some(v) => v as u64,
        None => 0,
    }
}

/// What web clients receive of the player data `p`.
pub open spec fn payload_of(p: PlayerView) -> PayloadView {
    PayloadView {
        name: p.track_title,
        artist: p.artist_name,
        album: p.album_title,
        image_url: p.image_url,
        duration_ms: duration_ms(p.duration),
        progress_ms: 0,
        id: p.uri,
    }
}

/// The image address that web pages can load, from the plugin's image text.
pub fn display_image(url: &str) -> (r: String)
    ensures
        r@ == display_image_url(url@),
{
    let t = trimmed(url);
    let tc = chars_of(t.as_str());
    let prefix = chars_of("spotify:image:");
    if starts_with(&tc, &prefix) {
        let id = substring(&tc, prefix.len(), tc.len());
        let mut r = String::from_str("https://i.scdn.co/image/");
        r.append(id.as_str());
        r
    } else {
        t
    }
}

fn text_or_else(o: Option<String>, d: &str) -> (r: String)
    ensures
        r@ == text_or(o, d@),
{
    match o {
        Some(s) => s,
        None => String::from_str(d),
    }
}

impl PlayerData {
    /// Takes over one track update; returns whether the track changed: its
    /// title, artist or album, or its URI.
    pub fn apply_track_data(&mut self, t: SpotifyTrackData) -> (changed: bool)
        ensures
            (final(self)@, changed) == after_track_data(old(self)@, t),
    {
        let ghost t0 = t;
        let mut changed = false;
        match t.metadata {
            Some(m) => {
                let ghost m0 = m;
                let title = text_or_else(m.title, "Unknown Track");
                let artist = text_or_else(m.artist_name, "Unknown Artist");
                let album = text_or_else(m.album_title, "Unknown Album");
                let duration = text_or_else(m.duration, "0");
                let image = match m.image_url {
                    Some(u) => display_image(u.as_str()),
                    None => display_image(""),
                };
                proof {
                    assert(""@ =~= Seq::<char>::empty()) by {
                        reveal_strlit("");
                    }
                }
                if !(title == self.track_title) || !(artist == self.artist_name) || !(album
                    == self.album_title) {
                    changed = true;
                }
                self.track_title = title;
                self.artist_name = artist;
                self.album_title = album;
                self.duration = duration;
                self.image_url = image;
                assert(self@ == with_metadata(old(self)@, m0));
            },
            None => {},
        }
        match t.uri {
            Some(u) => {
                if !(u == self.uri) {
                    changed = true;
                }
                self.uri = u;
            },
            None => {},
        }
        changed
    }

    /// Takes over a `command` event whose JSON text is `raw`; returns whether
    /// the track changed.
    pub fn apply_command(&mut self, raw: String, payload: CommandPayload) -> (changed: bool)
        ensures
            (final(self)@, changed) == after_command(old(self)@, raw@, payload),
    {
        match payload {
            CommandPayload::Track(t) => {
                self.raw_data = raw;
                self.apply_track_data(t)
            },
            CommandPayload::Text(s) => {
                self.raw_data = raw;
                if !(s == self.track_title) {
                    self.track_title = s;
                }
                false
            },
            CommandPayload::Other => {
                self.track_title = raw.clone();
                self.raw_data = raw;
                false
            },
        }
    }

    /// What web clients receive of this player data.
    pub fn payload(&self) -> (r: TrackPayload)
        ensures
            r@ == payload_of(self@),
    {
        let duration_ms = match parse_u64(self.duration.as_str()) {
            Some(v) => v,
            None => 0,
        };
        TrackPayload {
            name: self.track_title.clone(),
            artist: self.artist_name.clone(),
            album: self.album_title.clone(),
            image_url: self.image_url.clone(),
            duration_ms,
            progress_ms: 0,
            id: self.uri.clone(),
        }
    }
}

/// A track update with metadata counts as a change of track whenever the
/// reported title, artist or album (each with its default where missing)
/// differs from the one held, or a reported URI differs from the held URI;
/// and only then.
pub proof fn track_change_detected(p: PlayerView, t: SpotifyTrackData)
    requires
        t.metadata is Some,
    ensures
        ({
            let m = t.metadata->0;
            let changed = after_track_data(p, t).1;
            &&& text_or(m.title, "Unknown Track"@) != p.track_title ==> changed
            &&& text_or(m.artist_name, "Unknown Artist"@) != p.artist_name ==> changed
            &&& text_or(m.album_title, "Unknown Album"@) != p.album_title ==> changed
            &&& (t.uri matches Some(u) && u@ != p.uri) ==> changed
            &&& (text_or(m.title, "Unknown Track"@) == p.track_title && text_or(
                m.artist_name,
                "Unknown Artist"@,
            ) == p.artist_name && text_or(m.album_title, "Unknown Album"@) == p.album_title
                && (t.uri is None || t.uri->0@ == p.uri)) ==> !changed
        }),
{
}

/// A track update takes over every reported field: title, artist, album and
/// duration (each with its default where missing), the image address and a
/// reported URI.
pub proof fn track_update_taken_over(p: PlayerView, t: SpotifyTrackData)
    requires
        t.metadata is Some,
    ensures
        ({
            let m = t.metadata->0;
            let q = after_track_data(p, t).0;
            &&& q.track_title == text_or(m.title, "Unknown Track"@)
            &&& q.artist_name == text_or(m.artist_name, "Unknown Artist"@)
            &&& q.album_title == text_or(m.album_title, "Unknown Album"@)
            &&& q.duration == text_or(m.duration, "0"@)
            &&& q.image_url == display_image_url(text_or(m.image_url, Seq::empty()))
            &&& q.uri == text_or(t.uri, p.uri)
            &&& q.raw_data == p.raw_data
        }),
{
}

} // verus!
